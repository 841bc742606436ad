//! The textual forms of a UUID that the `uuid` crate reads and writes, stated
//! over the bytes of the text.

use crate::header::{is_value_text, is_visible_text};
use uuid::Uuid;
use vstd::prelude::*;
use vstd::string::StringSliceAdditionalSpecFns;
use vstd::utf8::encode_utf8;

verus! {

/// `uuid::Uuid`, of which the verifier sees nothing.
#[verifier::external_type_specification]
#[verifier::external_body]
pub struct ExUuid(uuid::Uuid);

/// Whether `b` is the code of an ASCII character from `low` to `high`.
pub open spec fn is_from_to(b: u8, low: char, high: char) -> bool {
    low as u8 <= b <= high as u8
}

/// An ASCII hexadecimal digit, in either case.
pub open spec fn is_hex_digit(b: u8) -> bool {
    is_from_to(b, '0', '9') || is_from_to(b, 'a', 'f') || is_from_to(b, 'A', 'F')
}

/// An ASCII hexadecimal digit with the letters in lower case.
pub open spec fn is_lower_hex_digit(b: u8) -> bool {
    is_from_to(b, '0', '9') || is_from_to(b, 'a', 'f')
}

/// The simple form: 32 hexadecimal digits.
pub open spec fn is_simple_uuid(text: Seq<u8>) -> bool {
    &&& text.len() == 32
    &&& forall|i: int| 0 <= i < 32 ==> is_hex_digit(#[trigger] text[i])
}

/// The simple form as this library writes it: 32 digits, letters in lower case.
pub open spec fn is_lower_simple_uuid(text: Seq<u8>) -> bool {
    &&& text.len() == 32
    &&& forall|i: int| 0 <= i < 32 ==> is_lower_hex_digit(#[trigger] text[i])
}

/// The places of the four hyphens of the hyphenated form.
pub open spec fn is_hyphen_place(i: int) -> bool {
    i == 8 || i == 13 || i == 18 || i == 23
}

/// The hyphenated form: five groups of 8, 4, 4, 4 and 12 hexadecimal digits.
pub open spec fn is_hyphenated_uuid(text: Seq<u8>) -> bool {
    &&& text.len() == 36
    &&& forall|i: int|
        0 <= i < 36 ==> if is_hyphen_place(i) {
            #[trigger] text[i] == '-' as u8
        } else {
            is_hex_digit(text[i])
        }
}

/// The hyphenated form between `{` and `}`.
pub open spec fn is_braced_uuid(text: Seq<u8>) -> bool {
    &&& text.len() == 38
    &&& text[0] == '{' as u8
    &&& text[37] == '}' as u8
    &&& is_hyphenated_uuid(text.subrange(1, 37))
}

/// An ASCII letter in lower case, any other byte as it is.
pub open spec fn ascii_lower(b: u8) -> u8 {
    if is_from_to(b, 'A', 'Z') {
        (b + 0x20) as u8
    } else {
        b
    }
}

/// The bytes of `urn:uuid:`.
pub open spec fn urn_prefix() -> Seq<u8> {
    seq![
        'u' as u8,
        'r' as u8,
        'n' as u8,
        ':' as u8,
        'u' as u8,
        'u' as u8,
        'i' as u8,
        'd' as u8,
        ':' as u8,
    ]
}

/// The hyphenated form behind `urn:uuid:`, the prefix in either case.
pub open spec fn is_urn_uuid(text: Seq<u8>) -> bool {
    &&& text.len() == 45
    &&& forall|i: int| 0 <= i < 9 ==> ascii_lower(#[trigger] text[i]) == urn_prefix()[i]
    &&& is_hyphenated_uuid(text.subrange(9, 45))
}

/// The texts that `Uuid::parse_str` reads as a UUID.
pub open spec fn is_uuid_text(text: Seq<u8>) -> bool {
    is_simple_uuid(text) || is_hyphenated_uuid(text) || is_braced_uuid(text) || is_urn_uuid(text)
}

/// `Uuid::parse_str`: whether `text` is a UUID in the simple, hyphenated,
/// braced or URN form.
#[verifier::external_body]
pub(crate) fn uuid_parses(text: &str) -> (ok: bool)
    ensures
        ok == is_uuid_text(text.spec_bytes()),
{
    Uuid::parse_str(text).is_ok()
}

/// `Uuid::new_v4`: a random UUID. Which one it is depends on the system's
/// random source, so nothing is said of it. It panics where the system
/// hands out no random bytes.
#[verifier::external_body]
pub(crate) fn new_uuid() -> Uuid {
    Uuid::new_v4()
}

/// `Simple::encode_lower` on `Uuid::simple`: the UUID written in the simple
/// form, 32 hexadecimal digits with the letters in lower case.
#[verifier::external_body]
pub(crate) fn encode_simple_lower(id: Uuid) -> (text: String)
    ensures
        is_lower_simple_uuid(encode_utf8(text@)),
{
    let mut buffer = [0u8; 32];
    id.simple().encode_lower(&mut buffer).to_owned()
}

/// Every text that reads as a UUID is made of visible ASCII, and is not empty.
pub proof fn lemma_uuid_text_is_visible(text: Seq<u8>)
    requires
        is_uuid_text(text),
    ensures
        is_visible_text(text),
        is_value_text(text),
        text.len() > 0,
{
    assert forall|i: int| 0 <= i < text.len() implies crate::header::is_visible_byte(
        #[trigger] text[i],
    ) by {
        if is_braced_uuid(text) && 1 <= i < 37 {
            assert(text[i] == text.subrange(1, 37)[i - 1]);
        }
        if is_urn_uuid(text) && 9 <= i {
            assert(text[i] == text.subrange(9, 45)[i - 9]);
        }
    }
}

/// What this library writes as a fresh identifier, the next hop reads as a UUID.
pub proof fn lemma_lower_simple_is_uuid_text(text: Seq<u8>)
    requires
        is_lower_simple_uuid(text),
    ensures
        is_uuid_text(text),
{
}

} // verus!
