//! What the library takes on trust of the `http` and `uuid` crates, held
//! against the crates themselves.

use http::header::{HeaderMap, HeaderValue};
use orion_telemetry::request_id::{value_or_fallback, RequestId, RequestIdManager, X_REQUEST_ID};
use orion_telemetry::tracing_attributes::{protocol_version, user_agent};

fn is_hex_digit(b: u8) -> bool {
    b.is_ascii_digit() || (b'a'..=b'f').contains(&b) || (b'A'..=b'F').contains(&b)
}

fn is_simple(text: &[u8]) -> bool {
    text.len() == 32 && text.iter().all(|b| is_hex_digit(*b))
}

fn is_hyphenated(text: &[u8]) -> bool {
    text.len() == 36
        && text.iter().enumerate().all(|(i, b)| if [8, 13, 18, 23].contains(&i) { *b == b'-' } else { is_hex_digit(*b) })
}

fn is_braced(text: &[u8]) -> bool {
    text.len() == 38 && text[0] == b'{' && text[37] == b'}' && is_hyphenated(&text[1..37])
}

fn is_urn(text: &[u8]) -> bool {
    text.len() == 45
        && text[..9].iter().zip(b"urn:uuid:").all(|(b, p)| b.to_ascii_lowercase() == *p)
        && is_hyphenated(&text[9..])
}

/// The texts that the library's contracts call a UUID.
fn reads_as_uuid(text: &[u8]) -> bool {
    is_simple(text) || is_hyphenated(text) || is_braced(text) || is_urn(text)
}

fn is_value_byte(b: u8) -> bool {
    (b >= 32 && b != 127) || b == 9
}

fn is_visible_byte(b: u8) -> bool {
    (32..127).contains(&b) || b == 9
}

/// A small generator of numbers, the same on every run.
struct Dice(u64);

impl Dice {
    fn roll(&mut self, sides: usize) -> usize {
        self.0 = self.0.wrapping_mul(6364136223846793005).wrapping_add(1442695040888963407);
        ((self.0 >> 33) as usize) % sides
    }
}

fn from_header(text: &[u8]) -> Option<RequestId> {
    let mut headers = HeaderMap::new();
    headers.insert(X_REQUEST_ID, HeaderValue::from_bytes(text).unwrap());
    RequestId::from_request(&headers)
}

#[test]
fn uuid_texts_are_read_as_the_contract_says() {
    let seeds: [&[u8]; 8] = [
        b"123e4567-e89b-12d3-a456-426614174000",
        b"123E4567-E89B-12D3-A456-42661417400F",
        b"123e4567e89b12d3a456426614174000",
        b"ABCDEFabcdef0123456789ABCDEFabcd",
        b"{123e4567-e89b-12d3-a456-426614174000}",
        b"urn:uuid:123e4567-e89b-12d3-a456-426614174000",
        b"URN:UUID:123e4567-e89b-12d3-a456-426614174000",
        b"Urn:uUid:00000000-0000-0000-0000-000000000000",
    ];
    let alphabet = b"0123456789abcdefABCDEFgG-{}:urnUIDid @`/_\x7e\xfa";
    let mut dice = Dice(7);
    let mut accepted = 0;
    let mut rejected = 0;
    for seed in seeds {
        assert!(reads_as_uuid(seed));
        assert_eq!(from_header(seed), Some(RequestId::Propagate(HeaderValue::from_bytes(seed).unwrap())));
        for _ in 0..4000 {
            let mut text = seed.to_vec();
            for _ in 0..(1 + dice.roll(2)) {
                let edit = dice.roll(4);
                let at = dice.roll(text.len().max(1));
                let with = alphabet[dice.roll(alphabet.len())];
                match edit {
                    0 if !text.is_empty() => text[at] = with,
                    1 => text.insert(at.min(text.len()), with),
                    2 if !text.is_empty() => {
                        text.remove(at);
                    },
                    _ if !text.is_empty() => text[at] = text[at].to_ascii_uppercase(),
                    _ => {},
                }
            }
            let read = from_header(&text);
            assert_eq!(read.is_some(), reads_as_uuid(&text), "{:?}", String::from_utf8_lossy(&text));
            if read.is_some() {
                assert_eq!(read, Some(RequestId::Propagate(HeaderValue::from_bytes(&text).unwrap())));
                accepted += 1;
            } else {
                rejected += 1;
            }
        }
    }
    assert!(accepted > 1000);
    assert!(rejected > 1000);
}

#[test]
fn texts_of_other_lengths_are_no_uuid() {
    for length in 0..60usize {
        let digits = vec![b'a'; length];
        assert_eq!(from_header(&digits).is_some(), length == 32, "{length} digits");
        let hyphens = vec![b'-'; length];
        assert_eq!(from_header(&hyphens), None);
    }
}

#[test]
fn header_values_are_made_from_the_bytes_the_contract_names() {
    for code in 0u32..=0xff {
        let c = char::from_u32(code).unwrap();
        let text = format!("a{c}b");
        let accepted = text.bytes().all(is_value_byte);
        let value = value_or_fallback(&text, "fallback");
        if accepted {
            assert_eq!(value.as_bytes(), text.as_bytes(), "U+{code:04X}");
        } else {
            assert_eq!(value, "fallback", "U+{code:04X}");
        }
        assert_eq!(accepted, (code >= 32 && code != 127) || code == 9);
    }
}

#[test]
fn header_values_are_text_where_the_contract_says_so() {
    for b in 0u8..=255 {
        let bytes = [b'a', b, b'z'];
        let Ok(value) = HeaderValue::from_bytes(&bytes) else {
            assert!(!is_value_byte(b));
            continue;
        };
        assert!(is_value_byte(b));
        let mut headers = HeaderMap::new();
        headers.insert("user-agent", value);
        let seen = user_agent(&headers);
        if is_visible_byte(b) {
            assert_eq!(seen.as_bytes(), &bytes);
        } else {
            assert_eq!(seen, "invalid-user-agent");
        }
    }
}

#[test]
fn fresh_identifiers_are_read_back_as_uuids() {
    for _ in 0..200 {
        let id = RequestIdManager::generate_new_id();
        assert!(id.as_bytes().iter().all(|b| b.is_ascii_digit() || (b'a'..=b'f').contains(b)));
        assert_eq!(id.len(), 32);
        assert!(reads_as_uuid(id.as_bytes()));
        assert_eq!(from_header(id.as_bytes()), Some(RequestId::Propagate(id)));
    }
}

#[test]
fn text_is_split_at_the_first_delimiter() {
    let texts = ["HTTP/1.1", "a/b/c", "/", "//", "abc", "", "é/ü", "no slash here", "tail/"];
    for text in texts {
        let expected = match text.find('/') {
            Some(at) => &text[at + 1..],
            None => "unknow",
        };
        assert_eq!(protocol_version(text), expected);
    }
}

#[test]
fn header_map_keeps_what_the_contract_says() {
    let manager = RequestIdManager::new(true, false, true);
    let mut headers = HeaderMap::new();
    headers.append("accept", HeaderValue::from_static("a"));
    headers.append("accept", HeaderValue::from_static("b"));
    headers.append(X_REQUEST_ID, HeaderValue::from_static("one"));
    headers.append(X_REQUEST_ID, HeaderValue::from_static("two"));
    headers.append("host", HeaderValue::from_static("h"));

    // insert: one value under the name, the other names as they were
    let id = HeaderValue::from_static("123e4567e89b12d3a456426614174000");
    manager.apply_to(&mut headers, Some(&id));
    assert_eq!(headers.get_all(X_REQUEST_ID).iter().collect::<Vec<_>>(), vec![&id]);
    assert_eq!(headers.get_all("accept").iter().collect::<Vec<_>>(), vec!["a", "b"]);
    assert_eq!(headers.get_all("host").iter().collect::<Vec<_>>(), vec!["h"]);
    assert_eq!(headers.keys_len(), 3);

    // get: the first value
    assert_eq!(RequestId::from_request(&headers), Some(RequestId::Propagate(id.clone())));

    // remove: nothing under the name, the other names as they were
    headers.append(X_REQUEST_ID, HeaderValue::from_static("again"));
    let quiet = RequestIdManager::new(false, false, false);
    let incoming = RequestId::from_request(&headers);
    assert_eq!(quiet.apply_policy(&mut headers, false, false, incoming.as_ref()), None);
    assert_eq!(headers.get_all(X_REQUEST_ID).iter().count(), 0);
    assert_eq!(headers.get_all("accept").iter().collect::<Vec<_>>(), vec!["a", "b"]);
    assert_eq!(headers.get_all("host").iter().collect::<Vec<_>>(), vec!["h"]);
    assert_eq!(headers.keys_len(), 2);
}

#[test]
fn header_map_takes_a_name_while_it_has_room() {
    // a map that was made as large as it gets, and filled up to the bound
    let mut headers = HeaderMap::with_capacity(24576);
    for i in 0..6553 {
        let name = http::header::HeaderName::from_bytes(format!("x-{i}").as_bytes()).unwrap();
        headers.insert(name, HeaderValue::from_static("v"));
    }
    let manager = RequestIdManager::new(true, false, false);
    let outcome = manager.try_apply_policy(&mut headers, false, false, None);
    assert!(matches!(outcome, Ok(Some(RequestId::Propagate(_)))));
    assert_eq!(headers.keys_len(), 6554);
    assert!(headers.contains_key(X_REQUEST_ID));
}
