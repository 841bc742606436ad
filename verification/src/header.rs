//! The `http` crate's header values and header maps, as the contracts of this
//! library see them: a value is its bytes, a map is the list of values stored
//! under each header name.

use http::header::{HeaderMap, HeaderValue};
use vstd::prelude::*;
use vstd::string::StringSliceAdditionalSpecFns;

verus! {

/// `http::header::HeaderValue`. The verifier sees nothing inside it: the
/// contracts speak of its bytes, by `header_value_bytes`.
#[verifier::external_type_specification]
#[verifier::external_body]
pub struct ExHeaderValue(http::header::HeaderValue);

/// `http::header::HeaderMap`. The verifier sees nothing inside it: the
/// contracts speak of its entries, by `header_entries`.
#[verifier::external_type_specification]
#[verifier::external_body]
#[verifier::reject_recursive_types(T)]
pub struct ExHeaderMap<T>(http::header::HeaderMap<T>);

/// The bytes that a header value holds: what `HeaderValue::as_bytes` returns.
pub uninterp spec fn header_value_bytes(value: HeaderValue) -> Seq<u8>;

/// The values stored under each header name, in the order in which
/// `HeaderMap::get_all` yields them. Names are in lower case, as the map keeps them.
pub uninterp spec fn header_entries(map: HeaderMap<HeaderValue>) -> Map<Seq<char>, Seq<Seq<u8>>>;

/// The number of slots of the largest table that a `HeaderMap` grows to
/// (`MAX_SIZE` in its source).
pub const HEADER_MAP_SLOTS: usize = 32768;

/// A byte that `HeaderValue` accepts: anything from space upwards but DEL, and the tab.
pub open spec fn is_value_byte(b: u8) -> bool {
    (b >= 32 && b != 127) || b == '\t' as u8
}

/// A byte that `HeaderValue::to_str` lets through: visible ASCII, space and tab.
pub open spec fn is_visible_byte(b: u8) -> bool {
    (32 <= b < 127) || b == '\t' as u8
}

/// Bytes that a header value may hold.
pub open spec fn is_value_text(bytes: Seq<u8>) -> bool {
    forall|i: int| 0 <= i < bytes.len() ==> is_value_byte(#[trigger] bytes[i])
}

/// Bytes that a header value hands out as text.
pub open spec fn is_visible_text(bytes: Seq<u8>) -> bool {
    forall|i: int| 0 <= i < bytes.len() ==> is_visible_byte(#[trigger] bytes[i])
}

/// A character of the header names that this library uses: a lower-case
/// letter, a digit or a hyphen.
pub open spec fn is_name_char(c: char) -> bool {
    ('a' <= c <= 'z') || ('0' <= c <= '9') || c == '-'
}

/// A header name made of such characters, short enough for the map to look it
/// up without allocating.
pub open spec fn is_plain_name(name: Seq<char>) -> bool {
    &&& 1 <= name.len() <= 64
    &&& forall|i: int| 0 <= i < name.len() ==> is_name_char(#[trigger] name[i])
}

/// The first of the values stored under `name`, which is the one that
/// `HeaderMap::get` hands out.
pub open spec fn first_value(entries: Map<Seq<char>, Seq<Seq<u8>>>, name: Seq<char>) -> Option<
    Seq<u8>,
> {
    if entries.dom().contains(name) {
        Some(entries[name][0])
    } else {
        None
    }
}

/// Whether a map with these entries is sure to take one more name: it is so
/// small that `HeaderMap::try_insert` cannot refuse.
pub open spec fn has_room(entries: Map<Seq<char>, Seq<Seq<u8>>>) -> bool {
    5 * entries.dom().len() < HEADER_MAP_SLOTS
}

/// `HeaderValue::clone`: the copy holds the same bytes.
pub assume_specification[ <http::header::HeaderValue as Clone>::clone ](
    value: &http::header::HeaderValue,
) -> (copy: http::header::HeaderValue)
    ensures
        header_value_bytes(copy) == header_value_bytes(*value),
;

/// `HeaderValue::to_str`: the text of a value whose bytes are all visible ASCII,
/// and nothing for any other value.
#[verifier::external_body]
pub(crate) fn value_to_str(value: &HeaderValue) -> (text: Option<&str>)
    ensures
        text is Some <==> is_visible_text(header_value_bytes(*value)),
        text matches Some(s) ==> s.spec_bytes() == header_value_bytes(*value),
{
    value.to_str().ok()
}

/// `HeaderValue::is_empty`: whether the value holds no byte.
#[verifier::external_body]
pub(crate) fn value_is_empty(value: &HeaderValue) -> (empty: bool)
    ensures
        empty == (header_value_bytes(*value).len() == 0),
{
    value.is_empty()
}

/// `HeaderValue::from_str`: a value with the bytes of `text` where every one of
/// them is a byte that a header value may hold, and nothing otherwise.
#[verifier::external_body]
pub(crate) fn value_from_str(text: &str) -> (value: Option<HeaderValue>)
    ensures
        value is Some <==> is_value_text(text.spec_bytes()),
        value matches Some(v) ==> header_value_bytes(v) == text.spec_bytes(),
{
    HeaderValue::from_str(text).ok()
}

/// `HeaderValue::from_static`: a value with the bytes of `text`. It panics on a
/// byte other than visible ASCII, space and tab, which `requires` leaves out.
#[verifier::external_body]
pub(crate) fn value_from_static(text: &'static str) -> (value: HeaderValue)
    requires
        is_visible_text(text.spec_bytes()),
    ensures
        header_value_bytes(value) == text.spec_bytes(),
{
    HeaderValue::from_static(text)
}

/// `HeaderMap::get`: the first value stored under `name`, if there is one.
#[verifier::external_body]
pub(crate) fn header_get<'a>(map: &'a HeaderMap<HeaderValue>, name: &str) -> (value: Option<
    &'a HeaderValue,
>)
    requires
        is_plain_name(name@),
    ensures
        value is Some <==> header_entries(*map).dom().contains(name@),
        value matches Some(v) ==> Some(header_value_bytes(*v)) == first_value(
            header_entries(*map),
            name@,
        ),
{
    map.get(name)
}

/// `HeaderMap::keys_len`: the number of names that the map holds.
#[verifier::external_body]
pub(crate) fn header_names_len(map: &HeaderMap<HeaderValue>) -> (count: usize)
    ensures
        count == header_entries(*map).dom().len(),
{
    map.keys_len()
}

/// `HeaderMap::try_insert`: where the map takes the entry, `value` is
/// afterwards the only value under `name`, and the other names keep theirs;
/// where it refuses, nothing is changed. A map refuses where its table of
/// `HEADER_MAP_SLOTS` slots would have to double. A table doubles when it is
/// three quarters full or, once it has seen many collisions, a fifth full: so
/// the map takes the entry while five times the number of its names is below
/// `HEADER_MAP_SLOTS`.
#[verifier::external_body]
pub(crate) fn header_try_insert(
    map: &mut HeaderMap<HeaderValue>,
    name: &'static str,
    value: HeaderValue,
) -> (stored: bool)
    requires
        is_plain_name(name@),
    ensures
        header_entries(*final(map)) == if stored {
            header_entries(*old(map)).insert(name@, seq![header_value_bytes(value)])
        } else {
            header_entries(*old(map))
        },
        has_room(header_entries(*old(map))) ==> stored,
{
    map.try_insert(name, value).is_ok()
}

/// `HeaderMap::remove`: afterwards nothing is stored under `name`, and the
/// other names keep their values.
#[verifier::external_body]
pub(crate) fn header_remove(map: &mut HeaderMap<HeaderValue>, name: &str)
    requires
        is_plain_name(name@),
    ensures
        header_entries(*final(map)) == header_entries(*old(map)).remove(name@),
{
    map.remove(name);
}

/// Whether `headers` is sure to take one more name: the test behind each
/// `requires` of this library that speaks of `has_room`.
pub fn can_add_header(headers: &HeaderMap<HeaderValue>) -> (ok: bool)
    ensures
        ok == has_room(header_entries(*headers)),
{
    let count = header_names_len(headers);
    count <= (HEADER_MAP_SLOTS - 1) / 5
}

} // verus!
