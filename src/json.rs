use vstd::prelude::*;

verus! {

/// A JSON document as a tree of plain values.
#[derive(Debug)]
pub enum Json {
    Null,
    Bool(bool),
    /// A number, held as its decimal text.
    Number(String),
    Str(String),
    Array(Vec<Json>),
    /// The members of an object, each a key and its value.
    Object(Vec<(String, Json)>),
}

/// The tree that serde_json reads from a text, or `None` where the text is
/// not a JSON document.
pub uninterp spec fn parsed_json(text: Seq<char>) -> Option<Json>;

/// Relies on `serde_json::from_str::<serde_json::Value>`: it reads a text into
/// a tree, or fails, and the outcome depends on the text alone. serde_json's
/// objects keep one member per key (the last one written), so a key repeated
/// in the text comes out once; the check on repeated keys made by the record
/// readers acts only on trees built otherwise.
#[verifier::external_body]
pub(crate) fn parse_json(text: &str) -> (r: Option<Json>)
    ensures
        r == parsed_json(text@),
{
    match serde_json::from_str::<serde_json::Value>(text) {
        Ok(v) => Some(json_from_value(v)),
        Err(_) => None,
    }
}

/// serde_json's own tree, opaque here: it is only handed to `json_from_value`.
#[verifier::external_type_specification]
#[verifier::external_body]
pub struct ExValue(serde_json::Value);

/// Turns serde_json's tree into a `Json`, variant for variant; numbers keep
/// the text that `serde_json::Number` displays. It serves `parse_json` alone.
#[verifier::external_body]
fn json_from_value(v: serde_json::Value) -> Json {
    match v {
        serde_json::Value::Null => Json::Null,
        serde_json::Value::Bool(b) => Json::Bool(b),
        serde_json::Value::Number(n) => Json::Number(n.to_string()),
        serde_json::Value::String(s) => Json::Str(s),
        serde_json::Value::Array(a) => Json::Array(a.into_iter().map(json_from_value).collect()),
        serde_json::Value::Object(m) => Json::Object(
            m.into_iter().map(|(k, x)| (k, json_from_value(x))).collect(),
        ),
    }
}

/// The value under `key` in the members of an object: the first member with
/// that key, if any.
pub open spec fn member(fields: Seq<(String, Json)>, key: Seq<char>) -> Option<Json>
    decreases fields.len(),
{
    if fields.len() == 0 {
        None
    } else if fields[0].0@ == key {
        Some(fields[0].1)
    } else {
        member(fields.drop_first(), key)
    }
}

/// How many members of an object have the key `key`.
pub open spec fn key_count(fields: Seq<(String, Json)>, key: Seq<char>) -> nat
    decreases fields.len(),
{
    if fields.len() == 0 {
        0
    } else {
        (if fields[0].0@ == key { 1nat } else { 0nat }) + key_count(fields.drop_first(), key)
    }
}

/// The field `key` of a record written as an object: `None` where the key is
/// repeated, which no record accepts; otherwise the value under the key, if
/// any.
pub open spec fn lookup(fields: Seq<(String, Json)>, key: Seq<char>) -> Option<Option<Json>> {
    if key_count(fields, key) > 1 {
        None
    } else {
        Some(member(fields, key))
    }
}

/// Finds the field `key` of a record written as an object: `None` where the
/// key is repeated, otherwise the value under it, if any.
pub fn find_member<'a>(fields: &'a Vec<(String, Json)>, key: &str) -> (r: Option<Option<&'a Json>>)
    ensures
        match r {
            None => lookup(fields@, key@) is None,
            Some(None) => lookup(fields@, key@) == Some(None::<Json>),
            Some(Some(v)) => lookup(fields@, key@) == Some(Some(*v)),
        },
{
    let wanted = String::from_str(key);
    let mut found: Option<&'a Json> = None;
    let mut i: usize = 0;
    assert(fields@.skip(0) =~= fields@);
    while i < fields.len()
        invariant
            i <= fields@.len(),
            wanted@ == key@,
            match found {
                None => member(fields@, key@) == member(fields@.skip(i as int), key@)
                    && key_count(fields@, key@) == key_count(fields@.skip(i as int), key@),
                Some(v) => member(fields@, key@) == Some(*v)
                    && key_count(fields@, key@) == 1 + key_count(fields@.skip(i as int), key@),
            },
        decreases fields@.len() - i,
    {
        assert(fields@.skip(i as int).drop_first() =~= fields@.skip(i + 1));
        if fields[i].0 == wanted {
            match found {
                Some(_) => return None,
                None => found = Some(&fields[i].1),
            }
        }
        i += 1;
    }
    assert(fields@.skip(i as int) =~= Seq::<(String, Json)>::empty());
    Some(found)
}

/// The characters of a string value.
pub open spec fn str_of(j: Json) -> Option<Seq<char>> {
    match j {
        Json::Str(s) => Some(s@),
        _ => None,
    }
}

/// A field that must be present and hold a string (the outer `None` of
/// `v` marks a repeated key).
pub open spec fn text_field(v: Option<Option<Json>>) -> Option<Seq<char>> {
    match v {
        Some(Some(j)) => str_of(j),
        _ => None,
    }
}

/// A field that may be missing or null, and otherwise holds a string. The
/// outer `None` marks a repeated key or a value of another shape.
pub open spec fn opt_text_field(v: Option<Option<Json>>) -> Option<Option<Seq<char>>> {
    match v {
        None => None,
        Some(None) => Some(None),
        Some(Some(Json::Null)) => Some(None),
        Some(Some(Json::Str(s))) => Some(Some(s@)),
        _ => None,
    }
}

/// A field that may be missing or null, and otherwise holds a number, kept
/// as its text.
pub open spec fn opt_number_field(v: Option<Option<Json>>) -> Option<Option<Seq<char>>> {
    match v {
        None => None,
        Some(None) => Some(None),
        Some(Some(Json::Null)) => Some(None),
        Some(Some(Json::Number(t))) => Some(Some(t@)),
        _ => None,
    }
}

/// The strings of an array whose items are all strings.
pub open spec fn texts(items: Seq<Json>) -> Option<Seq<Seq<char>>> {
    if forall|i: int| 0 <= i < items.len() ==> (#[trigger] items[i]) is Str {
        Some(Seq::new(items.len(), |i: int| str_of(items[i])->0))
    } else {
        None
    }
}

/// A field that may be missing or null, and otherwise holds an array of
/// strings.
pub open spec fn opt_texts_field(v: Option<Option<Json>>) -> Option<Option<Seq<Seq<char>>>> {
    match v {
        None => None,
        Some(None) => Some(None),
        Some(Some(Json::Null)) => Some(None),
        Some(Some(Json::Array(items))) => match texts(items@) {
            Some(t) => Some(Some(t)),
            None => None,
        },
        _ => None,
    }
}

/// Whether no two members of an object have the same key.
pub open spec fn distinct_keys(fields: Seq<(String, Json)>) -> bool {
    forall|i: int, j: int|
        #![trigger fields[i], fields[j]]
        0 <= i < j < fields.len() ==> fields[i].0@ != fields[j].0@
}

/// The members of an object whose keys are distinct and whose values are
/// all strings, as pairs of key and value.
pub open spec fn text_pairs(fields: Seq<(String, Json)>) -> Option<Seq<(Seq<char>, Seq<char>)>> {
    if distinct_keys(fields) && forall|i: int| 0 <= i < fields.len() ==> (#[trigger] fields[i]).1 is Str {
        Some(Seq::new(fields.len(), |i: int| (fields[i].0@, str_of(fields[i].1)->0)))
    } else {
        None
    }
}

/// A field that may be missing or null, and otherwise holds an object whose
/// keys are distinct and whose values are strings.
pub open spec fn opt_text_map_field(v: Option<Option<Json>>) -> Option<Option<Seq<(Seq<char>, Seq<char>)>>> {
    match v {
        None => None,
        Some(None) => Some(None),
        Some(Some(Json::Null)) => Some(None),
        Some(Some(Json::Object(fields))) => match text_pairs(fields@) {
            Some(t) => Some(Some(t)),
            None => None,
        },
        _ => None,
    }
}

/// The characters of an optional string.
pub open spec fn opt_view(v: Option<String>) -> Option<Seq<char>> {
    match v {
        Some(s) => Some(s@),
        None => None,
    }
}

/// The characters of each string of a sequence.
pub open spec fn views(v: Seq<String>) -> Seq<Seq<char>> {
    v.map_values(|s: String| s@)
}

/// The characters of each string of an optional list.
pub open spec fn opt_views(v: Option<Vec<String>>) -> Option<Seq<Seq<char>>> {
    match v {
        Some(l) => Some(views(l@)),
        None => None,
    }
}

/// The characters of each key and value of an optional list of pairs.
pub open spec fn opt_pair_views(v: Option<Vec<(String, String)>>) -> Option<Seq<(Seq<char>, Seq<char>)>> {
    match v {
        Some(l) => Some(l@.map_values(|p: (String, String)| (p.0@, p.1@))),
        None => None,
    }
}

/// Reads the strings of an array whose items are all strings.
pub fn text_items(items: &Vec<Json>) -> (r: Option<Vec<String>>)
    ensures
        opt_views(r) == texts(items@),
{
    let mut out: Vec<String> = Vec::new();
    let mut i: usize = 0;
    while i < items.len()
        invariant
            i <= items@.len(),
            out@.len() == i,
            forall|k: int| 0 <= k < i ==> (#[trigger] items@[k]) is Str && str_of(items@[k]) == Some(out@[k]@),
        decreases items@.len() - i,
    {
        match &items[i] {
            Json::Str(s) => out.push(s.clone()),
            _ => return None,
        }
        i += 1;
    }
    assert(views(out@) =~= Seq::new(items@.len(), |k: int| str_of(items@[k])->0));
    Some(out)
}

/// Whether no two members of an object have the same key.
pub fn has_distinct_keys(fields: &Vec<(String, Json)>) -> (r: bool)
    ensures
        r == distinct_keys(fields@),
{
    let mut i: usize = 0;
    while i < fields.len()
        invariant
            i <= fields@.len(),
            forall|a: int, b: int|
                #![trigger fields@[a], fields@[b]]
                0 <= a < i && a < b < fields@.len() ==> fields@[a].0@ != fields@[b].0@,
        decreases fields@.len() - i,
    {
        let mut j: usize = i + 1;
        while j < fields.len()
            invariant
                i < fields@.len(),
                i < j <= fields@.len(),
                forall|a: int, b: int|
                    #![trigger fields@[a], fields@[b]]
                    0 <= a < i && a < b < fields@.len() ==> fields@[a].0@ != fields@[b].0@,
                forall|b: int| i < b < j ==> fields@[i as int].0@ != (#[trigger] fields@[b]).0@,
            decreases fields@.len() - j,
        {
            if fields[i].0 == fields[j].0 {
                return false;
            }
            j += 1;
        }
        i += 1;
    }
    true
}

/// Reads the members of an object whose keys are distinct and whose values
/// are all strings.
pub fn text_pair_items(fields: &Vec<(String, Json)>) -> (r: Option<Vec<(String, String)>>)
    ensures
        opt_pair_views(r) == text_pairs(fields@),
{
    if !has_distinct_keys(fields) {
        return None;
    }
    let mut out: Vec<(String, String)> = Vec::new();
    let mut i: usize = 0;
    while i < fields.len()
        invariant
            i <= fields@.len(),
            out@.len() == i,
            forall|k: int| 0 <= k < i ==> (#[trigger] fields@[k]).1 is Str
                && out@[k].0@ == fields@[k].0@
                && str_of(fields@[k].1) == Some(out@[k].1@),
        decreases fields@.len() - i,
    {
        match &fields[i].1 {
            Json::Str(s) => out.push((fields[i].0.clone(), s.clone())),
            _ => return None,
        }
        i += 1;
    }
    assert(out@.map_values(|p: (String, String)| (p.0@, p.1@)) =~= Seq::new(
        fields@.len(),
        |k: int| (fields@[k].0@, str_of(fields@[k].1)->0),
    ));
    Some(out)
}

/// Reads a field that must be present and hold a string.
pub fn required_text(fields: &Vec<(String, Json)>, key: &str) -> (r: Option<String>)
    ensures
        opt_view(r) == text_field(lookup(fields@, key@)),
{
    match find_member(fields, key) {
        Some(Some(Json::Str(s))) => Some(s.clone()),
        _ => None,
    }
}

/// Reads a field that may be missing or null and otherwise holds a string.
pub fn optional_text(fields: &Vec<(String, Json)>, key: &str) -> (r: Option<Option<String>>)
    ensures
        match r {
            Some(x) => opt_text_field(lookup(fields@, key@)) == Some(opt_view(x)),
            None => opt_text_field(lookup(fields@, key@)) is None,
        },
{
    match find_member(fields, key) {
        None => None,
        Some(None) => Some(None),
        Some(Some(Json::Null)) => Some(None),
        Some(Some(Json::Str(s))) => Some(Some(s.clone())),
        _ => None,
    }
}

/// Reads a field that may be missing or null and otherwise holds a number.
pub fn optional_number(fields: &Vec<(String, Json)>, key: &str) -> (r: Option<Option<String>>)
    ensures
        match r {
            Some(x) => opt_number_field(lookup(fields@, key@)) == Some(opt_view(x)),
            None => opt_number_field(lookup(fields@, key@)) is None,
        },
{
    match find_member(fields, key) {
        None => None,
        Some(None) => Some(None),
        Some(Some(Json::Null)) => Some(None),
        Some(Some(Json::Number(t))) => Some(Some(t.clone())),
        _ => None,
    }
}

/// Reads a field that may be missing or null and otherwise holds an array of
/// strings.
pub fn optional_texts(fields: &Vec<(String, Json)>, key: &str) -> (r: Option<Option<Vec<String>>>)
    ensures
        match r {
            Some(x) => opt_texts_field(lookup(fields@, key@)) == Some(opt_views(x)),
            None => opt_texts_field(lookup(fields@, key@)) is None,
        },
{
    match find_member(fields, key) {
        None => None,
        Some(None) => Some(None),
        Some(Some(Json::Null)) => Some(None),
        Some(Some(Json::Array(items))) => match text_items(items) {
            Some(l) => Some(Some(l)),
            None => None,
        },
        _ => None,
    }
}

/// Reads a field that may be missing or null and otherwise holds an object
/// whose values are strings.
pub fn optional_text_map(fields: &Vec<(String, Json)>, key: &str) -> (r: Option<Option<Vec<(String, String)>>>)
    ensures
        match r {
            Some(x) => opt_text_map_field(lookup(fields@, key@)) == Some(opt_pair_views(x)),
            None => opt_text_map_field(lookup(fields@, key@)) is None,
        },
{
    match find_member(fields, key) {
        None => None,
        Some(None) => Some(None),
        Some(Some(Json::Null)) => Some(None),
        Some(Some(Json::Object(members))) => match text_pair_items(members) {
            Some(l) => Some(Some(l)),
            None => None,
        },
        _ => None,
    }
}

/// The view of an optional value.
pub open spec fn decoded_view<T: View>(r: Option<T>) -> Option<T::V> {
    match r {
        Some(x) => Some(x@),
        None => None,
    }
}

/// A record that can be read from a JSON value.
pub trait FromJson: Sized + View {
    /// The record that a JSON value describes, or `None` where the value does
    /// not have the record's shape.
    spec fn from_json_spec(j: Json) -> Option<Self::V>;

    /// Reads the record from a JSON value.
    fn from_json(j: &Json) -> (r: Option<Self>)
        ensures
            decoded_view(r) == Self::from_json_spec(*j),
    ;
}

} // verus!
