use vstd::prelude::*;

use crate::json::{
    find_member, lookup, opt_number_field, opt_pair_views, opt_text_field, opt_text_map_field,
    opt_texts_field, opt_view, opt_views, optional_number, optional_text, optional_text_map,
    optional_texts, required_text, text_field, FromJson, Json,
};
use crate::request::{HasRequestType, RequestType};

verus! {

/// The full record of a word: its frequency score, its pronunciations and
/// its senses.
#[derive(Debug, PartialEq, Eq)]
pub struct Word {
    pub word: String,
    /// The frequency score, as the decimal text of the number in the reply.
    pub frequency: Option<String>,
    /// Pairs of a phonetic system's name and the transcription in it; a
    /// decoded record names each system once.
    pub pronunciation: Option<Vec<(String, String)>>,
    /// The senses, read from the `results` member.
    pub entries: Vec<Entry>,
}

/// One sense of a word: its definition, part of speech and related words.
#[derive(Debug, PartialEq, Eq)]
pub struct Entry {
    pub definition: String,
    pub part_of_speech: Option<String>,
    pub derivation: Option<Vec<String>>,
    pub has_substances: Option<Vec<String>>,
    pub type_of: Option<Vec<String>>,
    pub verb_group: Option<Vec<String>>,
    pub has_types: Option<Vec<String>>,
    pub has_parts: Option<Vec<String>>,
    pub member_of: Option<Vec<String>>,
    pub part_of: Option<Vec<String>>,
    pub synonyms: Option<Vec<String>>,
    pub antonyms: Option<Vec<String>>,
    pub examples: Option<Vec<String>>,
    pub similar_to: Option<Vec<String>>,
    pub pertains_to: Option<Vec<String>>,
}

/// The characters of a [`Word`] record.
pub struct WordView {
    pub word: Seq<char>,
    pub frequency: Option<Seq<char>>,
    pub pronunciation: Option<Seq<(Seq<char>, Seq<char>)>>,
    pub entries: Seq<EntryView>,
}

/// The characters of an [`Entry`] record.
pub struct EntryView {
    pub definition: Seq<char>,
    pub part_of_speech: Option<Seq<char>>,
    pub derivation: Option<Seq<Seq<char>>>,
    pub has_substances: Option<Seq<Seq<char>>>,
    pub type_of: Option<Seq<Seq<char>>>,
    pub verb_group: Option<Seq<Seq<char>>>,
    pub has_types: Option<Seq<Seq<char>>>,
    pub has_parts: Option<Seq<Seq<char>>>,
    pub member_of: Option<Seq<Seq<char>>>,
    pub part_of: Option<Seq<Seq<char>>>,
    pub synonyms: Option<Seq<Seq<char>>>,
    pub antonyms: Option<Seq<Seq<char>>>,
    pub examples: Option<Seq<Seq<char>>>,
    pub similar_to: Option<Seq<Seq<char>>>,
    pub pertains_to: Option<Seq<Seq<char>>>,
}

impl View for Entry {
    type V = EntryView;

    open spec fn view(&self) -> EntryView {
        EntryView {
            definition: self.definition@,
            part_of_speech: opt_view(self.part_of_speech),
            derivation: opt_views(self.derivation),
            has_substances: opt_views(self.has_substances),
            type_of: opt_views(self.type_of),
            verb_group: opt_views(self.verb_group),
            has_types: opt_views(self.has_types),
            has_parts: opt_views(self.has_parts),
            member_of: opt_views(self.member_of),
            part_of: opt_views(self.part_of),
            synonyms: opt_views(self.synonyms),
            antonyms: opt_views(self.antonyms),
            examples: opt_views(self.examples),
            similar_to: opt_views(self.similar_to),
            pertains_to: opt_views(self.pertains_to),
        }
    }
}

impl View for Word {
    type V = WordView;

    open spec fn view(&self) -> WordView {
        WordView {
            word: self.word@,
            frequency: opt_view(self.frequency),
            pronunciation: opt_pair_views(self.pronunciation),
            entries: entry_views(self.entries@),
        }
    }
}

/// The views of a sequence of entries.
pub open spec fn entry_views(entries: Seq<Entry>) -> Seq<EntryView> {
    entries.map_values(|e: Entry| e@)
}

impl FromJson for Entry {
    /// An object with a string under `definition`; every other field may be
    /// missing or null, and otherwise holds a string (`partOfSpeech`) or an
    /// array of strings (the related words, under their camel-case keys).
    /// Other members are ignored. None of these keys may occur twice, and a
    /// record written as an array is not accepted.
    open spec fn from_json_spec(j: Json) -> Option<EntryView> {
        match j {
            Json::Object(fields) => {
                let definition = text_field(lookup(fields@, "definition"@));
                let part_of_speech = opt_text_field(lookup(fields@, "partOfSpeech"@));
                let derivation = opt_texts_field(lookup(fields@, "derivation"@));
                let has_substances = opt_texts_field(lookup(fields@, "hasSubstances"@));
                let type_of = opt_texts_field(lookup(fields@, "typeOf"@));
                let verb_group = opt_texts_field(lookup(fields@, "verbGroup"@));
                let has_types = opt_texts_field(lookup(fields@, "hasTypes"@));
                let has_parts = opt_texts_field(lookup(fields@, "hasParts"@));
                let member_of = opt_texts_field(lookup(fields@, "memberOf"@));
                let part_of = opt_texts_field(lookup(fields@, "partOf"@));
                let synonyms = opt_texts_field(lookup(fields@, "synonyms"@));
                let antonyms = opt_texts_field(lookup(fields@, "antonyms"@));
                let examples = opt_texts_field(lookup(fields@, "examples"@));
                let similar_to = opt_texts_field(lookup(fields@, "similarTo"@));
                let pertains_to = opt_texts_field(lookup(fields@, "pertainsTo"@));
                if definition is Some && part_of_speech is Some
                    && derivation is Some
                    && has_substances is Some
                    && type_of is Some
                    && verb_group is Some
                    && has_types is Some
                    && has_parts is Some
                    && member_of is Some
                    && part_of is Some
                    && synonyms is Some
                    && antonyms is Some
                    && examples is Some
                    && similar_to is Some
                    && pertains_to is Some
                {
                    Some(EntryView {
                        definition: definition->0,
                        part_of_speech: part_of_speech->0,
                        derivation: derivation->0,
                        has_substances: has_substances->0,
                        type_of: type_of->0,
                        verb_group: verb_group->0,
                        has_types: has_types->0,
                        has_parts: has_parts->0,
                        member_of: member_of->0,
                        part_of: part_of->0,
                        synonyms: synonyms->0,
                        antonyms: antonyms->0,
                        examples: examples->0,
                        similar_to: similar_to->0,
                        pertains_to: pertains_to->0,
                    })
                } else {
                    None
                }
            },
            _ => None,
        }
    }

    fn from_json(j: &Json) -> (r: Option<Entry>) {
        match j {
            Json::Object(fields) => {
                let definition = required_text(fields, "definition")?;
                let part_of_speech = optional_text(fields, "partOfSpeech")?;
                let derivation = optional_texts(fields, "derivation")?;
                let has_substances = optional_texts(fields, "hasSubstances")?;
                let type_of = optional_texts(fields, "typeOf")?;
                let verb_group = optional_texts(fields, "verbGroup")?;
                let has_types = optional_texts(fields, "hasTypes")?;
                let has_parts = optional_texts(fields, "hasParts")?;
                let member_of = optional_texts(fields, "memberOf")?;
                let part_of = optional_texts(fields, "partOf")?;
                let synonyms = optional_texts(fields, "synonyms")?;
                let antonyms = optional_texts(fields, "antonyms")?;
                let examples = optional_texts(fields, "examples")?;
                let similar_to = optional_texts(fields, "similarTo")?;
                let pertains_to = optional_texts(fields, "pertainsTo")?;
                Some(Entry {
                    definition,
                    part_of_speech,
                    derivation,
                    has_substances,
                    type_of,
                    verb_group,
                    has_types,
                    has_parts,
                    member_of,
                    part_of,
                    synonyms,
                    antonyms,
                    examples,
                    similar_to,
                    pertains_to,
                })
            },
            _ => None,
        }
    }
}

/// The entries of an array whose items all read as entries.
pub open spec fn entries_of(items: Seq<Json>) -> Option<Seq<EntryView>> {
    if forall|i: int| 0 <= i < items.len() ==> (#[trigger] Entry::from_json_spec(items[i])) is Some {
        Some(Seq::new(items.len(), |i: int| Entry::from_json_spec(items[i])->0))
    } else {
        None
    }
}

/// A field that must be present and hold an array of entries.
pub open spec fn entries_field(v: Option<Option<Json>>) -> Option<Seq<EntryView>> {
    match v {
        Some(Some(Json::Array(items))) => entries_of(items@),
        _ => None,
    }
}

/// Reads an array whose items all read as entries.
fn entry_items(items: &Vec<Json>) -> (r: Option<Vec<Entry>>)
    ensures
        match r {
            Some(v) => entries_of(items@) == Some(entry_views(v@)),
            None => entries_of(items@) is None,
        },
{
    let mut out: Vec<Entry> = Vec::new();
    let mut i: usize = 0;
    while i < items.len()
        invariant
            i <= items@.len(),
            out@.len() == i,
            forall|k: int| 0 <= k < i ==> (#[trigger] Entry::from_json_spec(items@[k])) == Some(out@[k]@),
        decreases items@.len() - i,
    {
        match Entry::from_json(&items[i]) {
            Some(e) => out.push(e),
            None => return None,
        }
        i += 1;
    }
    assert(entry_views(out@) =~= Seq::new(items@.len(), |k: int| Entry::from_json_spec(items@[k])->0));
    Some(out)
}

impl FromJson for Word {
    /// An object with a string under `word` and an array of entries under
    /// `results`; `frequency` may be missing or null and otherwise holds a
    /// number, `pronunciation` may be missing or null and otherwise holds an
    /// object with distinct keys whose values are strings. Other members are
    /// ignored. None of these keys may occur twice, and a record written as an
    /// array is not accepted.
    open spec fn from_json_spec(j: Json) -> Option<WordView> {
        match j {
            Json::Object(fields) => {
                let word = text_field(lookup(fields@, "word"@));
                let frequency = opt_number_field(lookup(fields@, "frequency"@));
                let pronunciation = opt_text_map_field(lookup(fields@, "pronunciation"@));
                let entries = entries_field(lookup(fields@, "results"@));
                if word is Some && frequency is Some && pronunciation is Some && entries is Some {
                    Some(WordView {
                        word: word->0,
                        frequency: frequency->0,
                        pronunciation: pronunciation->0,
                        entries: entries->0,
                    })
                } else {
                    None
                }
            },
            _ => None,
        }
    }

    fn from_json(j: &Json) -> (r: Option<Word>) {
        match j {
            Json::Object(fields) => {
                let word = required_text(fields, "word")?;
                let frequency = optional_number(fields, "frequency")?;
                let pronunciation = optional_text_map(fields, "pronunciation")?;
                let entries = match find_member(fields, "results") {
                    Some(Some(Json::Array(items))) => entry_items(items)?,
                    _ => return None,
                };
                Some(Word { word, frequency, pronunciation, entries })
            },
            _ => None,
        }
    }
}

impl HasRequestType for Word {
    open spec fn kind() -> RequestType {
        RequestType::Word
    }

    fn request_type() -> (r: RequestType) {
        RequestType::Word
    }
}

} // verus!
