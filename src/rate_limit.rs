use vstd::prelude::*;

verus! {

/// The header that holds how many requests are left.
pub const X_RATE_LIMIT_REMAINING: &'static str = "x-ratelimit-requests-remaining";

/// The header that holds how many requests are allowed in all.
pub const X_RATE_LIMIT_REQUESTS_LIMIT: &'static str = "x-ratelimit-requests-limit";

/// A byte with ASCII upper case turned to lower case.
pub open spec fn ascii_lower(b: u8) -> u8 {
    if 65 <= b <= 90 {
        (b + 32) as u8
    } else {
        b
    }
}

/// Whether two header names are equal but for ASCII case.
pub open spec fn same_name(a: Seq<u8>, b: Seq<u8>) -> bool {
    a.len() == b.len() && forall|i: int| 0 <= i < a.len() ==> ascii_lower(#[trigger] a[i]) == ascii_lower(b[i])
}

/// The value of the first header whose name is `name` but for ASCII case.
pub open spec fn header_value(headers: Seq<(Vec<u8>, Vec<u8>)>, name: Seq<u8>) -> Option<Seq<u8>>
    decreases headers.len(),
{
    if headers.len() == 0 {
        None
    } else if same_name(headers[0].0@, name) {
        Some(headers[0].1@)
    } else {
        header_value(headers.drop_first(), name)
    }
}

/// The bytes of an ASCII text.
pub open spec fn ascii_bytes(s: Seq<char>) -> Seq<u8> {
    s.map_values(|c: char| c as u8)
}

/// Whether a byte is a decimal digit.
pub open spec fn is_digit(b: u8) -> bool {
    48 <= b <= 57
}

/// The number that a string of decimal digits writes.
pub open spec fn digits_value(s: Seq<u8>) -> nat
    decreases s.len(),
{
    if s.len() == 0 {
        0
    } else {
        digits_value(s.drop_last()) * 10 + (s.last() - 48) as nat
    }
}

/// The digits of a count: the text without one leading `+`.
pub open spec fn count_digits(s: Seq<u8>) -> Seq<u8> {
    if s.len() > 0 && s[0] == 43 {
        s.drop_first()
    } else {
        s
    }
}

/// The count that a text writes: an optional `+` and one or more decimal
/// digits, whose value fits in a `usize`.
pub open spec fn count_of(s: Seq<u8>) -> Option<nat> {
    let d = count_digits(s);
    if d.len() > 0 && (forall|i: int| 0 <= i < d.len() ==> is_digit(#[trigger] d[i]))
        && digits_value(d) <= usize::MAX {
        Some(digits_value(d))
    } else {
        None
    }
}

/// A rate-limit counter read from an optional header value: the count it
/// writes, or 0 where the header is missing or writes no count.
pub open spec fn counter_value(v: Option<Seq<u8>>) -> nat {
    match v {
        Some(s) => match count_of(s) {
            Some(n) => n,
            None => 0,
        },
        None => 0,
    }
}

/// A prefix of a string of digits writes no more than the whole string.
proof fn lemma_digits_prefix(s: Seq<u8>, j: int)
    requires
        0 <= j <= s.len(),
        forall|i: int| 0 <= i < s.len() ==> is_digit(#[trigger] s[i]),
    ensures
        digits_value(s.take(j)) <= digits_value(s),
    decreases s.len(),
{
    if j < s.len() {
        assert(s.drop_last().take(j) =~= s.take(j));
        lemma_digits_prefix(s.drop_last(), j);
    } else {
        assert(s.take(j) =~= s);
    }
}

/// Reads a count: an optional `+` and decimal digits whose value fits in a
/// `usize`.
pub fn parse_count(v: &[u8]) -> (r: Option<usize>)
    ensures
        match r {
            Some(n) => count_of(v@) == Some(n as nat),
            None => count_of(v@) is None,
        },
{
    let start: usize = if v.len() > 0 && v[0] == 43 { 1 } else { 0 };
    let ghost d = count_digits(v@);
    assert(d =~= v@.subrange(start as int, v@.len() as int));
    if start >= v.len() {
        return None;
    }
    let mut value: usize = 0;
    let mut i: usize = start;
    assert(v@.subrange(start as int, i as int) =~= Seq::<u8>::empty());
    while i < v.len()
        invariant
            start <= i <= v@.len(),
            start < v@.len(),
            d == v@.subrange(start as int, v@.len() as int),
            d == count_digits(v@),
            forall|k: int| start <= k < i ==> is_digit(#[trigger] v@[k]),
            value == digits_value(v@.subrange(start as int, i as int)),
        decreases v@.len() - i,
    {
        let b = v[i];
        if b < 48 || b > 57 {
            assert(!is_digit(d[i - start]));
            return None;
        }
        let digit = (b - 48) as usize;
        let ghost next = v@.subrange(start as int, i + 1);
        assert(next.drop_last() =~= v@.subrange(start as int, i as int));
        assert(digits_value(next) == value * 10 + digit);
        if value > (usize::MAX - digit) / 10 {
            assert(value * 10 + digit > usize::MAX) by (nonlinear_arith)
                requires
                    value > (usize::MAX - digit) / 10,
                    digit <= 9,
            ;
            proof {
                if forall|k: int| 0 <= k < d.len() ==> is_digit(#[trigger] d[k]) {
                    assert(d.take(i + 1 - start) =~= next);
                    lemma_digits_prefix(d, i + 1 - start);
                }
            }
            return None;
        }
        assert(value * 10 + digit <= usize::MAX) by (nonlinear_arith)
            requires
                value <= (usize::MAX - digit) / 10,
                digit <= 9,
        ;
        value = value * 10 + digit;
        i += 1;
    }
    assert(v@.subrange(start as int, i as int) =~= d);
    Some(value)
}

/// A byte with ASCII upper case turned to lower case.
fn to_ascii_lower(b: u8) -> (r: u8)
    ensures
        r == ascii_lower(b),
{
    if 65 <= b && b <= 90 {
        b + 32
    } else {
        b
    }
}

/// Whether two header names are equal but for ASCII case.
pub fn names_match(a: &[u8], b: &[u8]) -> (r: bool)
    ensures
        r == same_name(a@, b@),
{
    if a.len() != b.len() {
        return false;
    }
    let mut i: usize = 0;
    while i < a.len()
        invariant
            i <= a@.len(),
            a@.len() == b@.len(),
            forall|k: int| 0 <= k < i ==> ascii_lower(#[trigger] a@[k]) == ascii_lower(b@[k]),
        decreases a@.len() - i,
    {
        if to_ascii_lower(a[i]) != to_ascii_lower(b[i]) {
            return false;
        }
        i += 1;
    }
    true
}

/// Finds the value of the first header whose name is `name` but for ASCII
/// case.
pub fn find_header<'a>(headers: &'a Vec<(Vec<u8>, Vec<u8>)>, name: &[u8]) -> (r: Option<&'a Vec<u8>>)
    ensures
        match r {
            Some(v) => header_value(headers@, name@) == Some(v@),
            None => header_value(headers@, name@) is None,
        },
{
    let mut i: usize = 0;
    assert(headers@.skip(0) =~= headers@);
    while i < headers.len()
        invariant
            i <= headers@.len(),
            header_value(headers@, name@) == header_value(headers@.skip(i as int), name@),
        decreases headers@.len() - i,
    {
        assert(headers@.skip(i as int).drop_first() =~= headers@.skip(i + 1));
        if names_match(headers[i].0.as_slice(), name) {
            return Some(&headers[i].1);
        }
        i += 1;
    }
    assert(headers@.skip(i as int) =~= Seq::<(Vec<u8>, Vec<u8>)>::empty());
    None
}

/// Reads a rate-limit counter from the headers: the count that the first
/// header named `name` writes, or 0 where there is none or it writes no
/// count.
pub fn counter(headers: &Vec<(Vec<u8>, Vec<u8>)>, name: &[u8]) -> (r: usize)
    ensures
        r == counter_value(header_value(headers@, name@)),
{
    match find_header(headers, name) {
        Some(v) => match parse_count(v.as_slice()) {
            Some(n) => n,
            None => 0,
        },
        None => 0,
    }
}

/// Reads the two rate-limit counters of a reply from its headers, given as
/// pairs of name and value: how many requests are left, and how many are
/// allowed in all. A counter is 0 where its header is missing or writes no
/// count.
pub fn rate_limits(headers: &Vec<(Vec<u8>, Vec<u8>)>) -> (r: (usize, usize))
    ensures
        r.0 == counter_value(header_value(headers@, ascii_bytes(X_RATE_LIMIT_REMAINING@))),
        r.1 == counter_value(header_value(headers@, ascii_bytes(X_RATE_LIMIT_REQUESTS_LIMIT@))),
{
    broadcast use vstd::string::is_ascii_spec_bytes;

    proof {
        reveal_strlit("x-ratelimit-requests-remaining");
        reveal_strlit("x-ratelimit-requests-limit");
    }
    assert(vstd::string::is_ascii(X_RATE_LIMIT_REMAINING));
    assert(vstd::string::is_ascii(X_RATE_LIMIT_REQUESTS_LIMIT));
    let remaining_name = X_RATE_LIMIT_REMAINING.as_bytes();
    let limit_name = X_RATE_LIMIT_REQUESTS_LIMIT.as_bytes();
    assert(remaining_name@ =~= ascii_bytes(X_RATE_LIMIT_REMAINING@));
    assert(limit_name@ =~= ascii_bytes(X_RATE_LIMIT_REQUESTS_LIMIT@));
    (counter(headers, remaining_name), counter(headers, limit_name))
}

} // verus!
