//! Header maps, as the HTTP stack delivers them.

use axum::http::HeaderMap;
use vstd::prelude::*;
use vstd::string::*;

use crate::text::lower;

verus! {

/// Declares `http::HeaderValue`.
#[verifier::external_type_specification]
#[verifier::external_body]
pub struct ExHeaderValue(axum::http::HeaderValue);

/// Declares `http::HeaderMap`.
#[verifier::external_type_specification]
#[verifier::external_body]
#[verifier::reject_recursive_types(T)]
pub struct ExHeaderMap<T>(axum::http::HeaderMap<T>);

/// The headers in a map, name and value, in the order in which the map is walked.
pub uninterp spec fn entries(headers: HeaderMap) -> Seq<(Seq<char>, Seq<u8>)>;

/// A list of headers as mathematical values.
pub open spec fn listed(list: Seq<(String, Vec<u8>)>) -> Seq<(Seq<char>, Seq<u8>)> {
    list.map_values(|h: (String, Vec<u8>)| (h.0@, h.1@))
}

/// The first value in `list` under `name`.
pub open spec fn first_of(list: Seq<(Seq<char>, Seq<u8>)>, name: Seq<char>) -> Option<Seq<u8>>
    decreases list.len(),
{
    if list.len() == 0 {
        None
    } else if list[0].0 == name {
        Some(list[0].1)
    } else {
        first_of(list.drop_first(), name)
    }
}

/// `HeaderMap::iter`: every header, once per value. Its order is arbitrary but for the values of
/// one name, which come as they were added.
#[verifier::external_body]
pub(crate) fn header_list(headers: &HeaderMap) -> (res: Vec<(String, Vec<u8>)>)
    ensures
        listed(res@) == entries(*headers),
{
    headers
        .iter()
        .map(|(name, value)| (name.as_str().to_string(), value.as_bytes().to_vec()))
        .collect()
}

/// `HeaderMap::get`: the first value under a name, which is matched without regard to case (the
/// map holds names in lower case).
#[verifier::external_body]
pub(crate) fn header_get(headers: &HeaderMap, name: &str) -> (res: Option<Vec<u8>>)
    ensures
        bytes_of(res) == first_of(entries(*headers), lower(name@)),
{
    headers.get(name).map(|value| value.as_bytes().to_vec())
}

/// The bytes of a value that may be missing.
pub open spec fn bytes_of(value: Option<Vec<u8>>) -> Option<Seq<u8>> {
    match value {
        Some(bytes) => Some(bytes@),
        None => None,
    }
}

/// A byte that a header may show as text: visible ASCII, a space or a tab.
pub open spec fn is_visible(b: u8) -> bool {
    32 <= b < 127 || b == 9
}

/// The text of a header value, where all of it is visible ASCII.
pub open spec fn header_text(value: Seq<u8>) -> Option<Seq<char>> {
    if forall|i: int| 0 <= i < value.len() ==> is_visible(#[trigger] value[i]) {
        Some(value.map_values(|b: u8| b as char))
    } else {
        None
    }
}

/// Reads a header value as text.
pub fn value_text(value: &Vec<u8>) -> (res: Option<String>)
    ensures
        match res {
            Some(text) => header_text(value@) == Some(text@),
            None => header_text(value@) is None,
        },
{
    let mut out = String::new();
    let mut i: usize = 0;
    while i < value.len()
        invariant
            i <= value@.len(),
            forall|j: int| 0 <= j < i ==> is_visible(#[trigger] value@[j]),
            out@ == value@.take(i as int).map_values(|b: u8| b as char),
        decreases value@.len() - i,
    {
        let b = value[i];
        if !((32 <= b && b < 127) || b == 9) {
            assert(!is_visible(value@[i as int]));
            return None;
        }
        out.push(b as char);
        assert(value@.take(i + 1) =~= value@.take(i as int).push(b));
        assert(out@ =~= value@.take(i + 1).map_values(|b: u8| b as char));
        i = i + 1;
    }
    assert(value@.take(i as int) =~= value@);
    Some(out)
}

/// A header value is read as text exactly where each byte is a tab or one of 32 to 126, and each byte
/// becomes the character of that code.
pub proof fn law_header_text(value: &Vec<u8>, res: Option<String>)
    requires
        call_ensures(value_text, (value,), res),
    ensures
        res is Some <==> header_text(value@) is Some,
        res matches Some(text) ==> header_text(value@) == Some(text@),
        res is Some <==> forall|i: int|
            0 <= i < value@.len() ==> (#[trigger] value@[i] == 9 || 32 <= value@[i] <= 126),
        res matches Some(text) ==> {
            &&& text@.len() == value@.len()
            &&& forall|i: int| 0 <= i < text@.len() ==> (#[trigger] text@[i]) as int == value@[i]
        },
{
    if res is None {
        let i = choose|i: int| 0 <= i < value@.len() && !is_visible(#[trigger] value@[i]);
        assert(!(value@[i] == 9 || 32 <= value@[i] <= 126));
    } else {
        assert forall|i: int| 0 <= i < value@.len() implies (#[trigger] value@[i] == 9 || 32
            <= value@[i] <= 126) by {
            assert(is_visible(value@[i]));
        }
    }
}

/// The value of a header is the first one under its name, in the order of the list.
pub proof fn law_first_value_counts(list: Seq<(Seq<char>, Seq<u8>)>, name: Seq<char>)
    ensures
        match first_of(list, name) {
            Some(value) => exists|i: int|
                0 <= i < list.len() && #[trigger] list[i] == (name, value) && forall|j: int|
                    0 <= j < i ==> (#[trigger] list[j]).0 != name,
            None => forall|i: int| 0 <= i < list.len() ==> (#[trigger] list[i]).0 != name,
        },
    decreases list.len(),
{
    if list.len() > 0 && list[0].0 != name {
        let rest = list.drop_first();
        law_first_value_counts(rest, name);
        match first_of(rest, name) {
            Some(value) => {
                let i = choose|i: int|
                    0 <= i < rest.len() && #[trigger] rest[i] == (name, value) && forall|j: int|
                        0 <= j < i ==> (#[trigger] rest[j]).0 != name;
                assert(list[i + 1] == (name, value));
                assert forall|j: int| 0 <= j < i + 1 implies (#[trigger] list[j]).0 != name by {
                    if j > 0 {
                        assert(rest[j - 1] == list[j]);
                    }
                }
            },
            None => {
                assert forall|i: int| 0 <= i < list.len() implies (#[trigger] list[i]).0 != name by {
                    if i > 0 {
                        assert(rest[i - 1] == list[i]);
                    }
                }
            },
        }
    } else if list.len() > 0 {
        assert(list[0] == (name, list[0].1));
    }
}

/// A list of headers holds each name and each value as it was given, in the same order.
pub proof fn law_list_is_kept(list: Seq<(String, Vec<u8>)>)
    ensures
        listed(list).len() == list.len(),
        forall|i: int|
            0 <= i < list.len() ==> (#[trigger] listed(list)[i]).0 == list[i].0@ && listed(list)[i].1
                == list[i].1@,
{
}

} // verus!
