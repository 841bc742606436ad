//! The attributes that a request gives to its tracing span.

use crate::header::{
    first_value, header_entries, header_get, is_plain_name, is_visible_text, value_to_str,
};
use crate::span_state::{span_set_attribute, span_set_attributes, SpanCall, TracedSpan};
use http::header::{HeaderMap, HeaderValue};
use vstd::prelude::*;
use vstd::utf8::decode_utf8;

verus! {

// The names of the attributes, as the OpenTelemetry semantic conventions give them.
pub const HTTP_REQUEST_METHOD: &'static str = "http.request.method";

pub const HTTP_REQUEST_METHOD_ORIGINAL: &'static str = "http.request.method_original";

pub const HTTP_RESPONSE_STATUS_CODE: &'static str = "http.response.status_code";

pub const HTTP_REQUEST_RESEND_COUNT: &'static str = "http.request.resend_count";

pub const HTTP_REQUEST_BODY_SIZE: &'static str = "http.request.body.size";

pub const HTTP_REQUEST_SIZE: &'static str = "http.request.size";

pub const HTTP_RESPONSE_BODY_SIZE: &'static str = "http.response.body.size";

pub const HTTP_RESPONSE_SIZE: &'static str = "http.response.size";

pub const URL_FULL: &'static str = "url.full";

pub const URL_PATH: &'static str = "url.path";

pub const URL_QUERY: &'static str = "url.query";

pub const URL_SCHEME: &'static str = "url.scheme";

pub const USER_AGENT_ORIGINAL: &'static str = "user_agent.original";

pub const NETWORK_PROTOCOL_NAME: &'static str = "network.protocol.name";

pub const NETWORK_PROTOCOL_VERSION: &'static str = "network.protocol.version";

pub const UPSTREAM_CLUSTER_NAME: &'static str = "upstream.cluster.name";

pub const UPSTREAM_ADDRESS: &'static str = "upstream.address";

/// The name of the header that tells the client's software.
pub const USER_AGENT: &'static str = "user-agent";

/// The protocol name that every request is traced with.
pub const PROTOCOL_HTTP: &'static str = "http";

/// The protocol version of a request whose version text holds no `/`.
pub const VERSION_UNKNOWN: &'static str = "unknow";

/// The user agent of a request that names none.
pub const USER_AGENT_UNKNOWN: &'static str = "unknown";

/// The user agent of a request whose header is not visible ASCII.
pub const USER_AGENT_INVALID: &'static str = "invalid-user-agent";

/// What the attributes are made from: the parts of a request's head, as text.
pub struct RequestHead<'a> {
    pub method: &'a str,
    /// The whole request URI.
    pub url: &'a str,
    pub path: &'a str,
    pub query: Option<&'a str>,
    pub scheme: Option<&'a str>,
    /// The protocol with its version, as in `HTTP/1.1`.
    pub version: &'a str,
    pub headers: &'a HeaderMap<HeaderValue>,
}

/// One attribute of a span.
#[derive(Debug, PartialEq, Eq)]
pub struct Attribute {
    pub key: &'static str,
    pub value: String,
}

impl Clone for Attribute {
    fn clone(&self) -> (copy: Self)
        ensures
            copy@ == self@,
    {
        Attribute { key: self.key, value: self.value.clone() }
    }
}

impl View for Attribute {
    type V = (Seq<char>, Seq<char>);

    open spec fn view(&self) -> (Seq<char>, Seq<char>) {
        (self.key@, self.value@)
    }
}

/// The attributes of one request: those that every request has, and the two
/// that only a request with a query or with a scheme has.
pub struct RequestAttributes {
    pub common: Vec<Attribute>,
    pub query: Option<Attribute>,
    pub scheme: Option<Attribute>,
}

/// The place of the first `c` in `text`, or the length of `text` where it holds none.
pub open spec fn first_index_of(text: Seq<char>, c: char) -> int
    decreases text.len(),
{
    if text.len() == 0 || text[0] == c {
        0
    } else {
        1 + first_index_of(text.skip(1), c)
    }
}

/// The version of the protocol: what follows the first `/` of the version text.
pub open spec fn protocol_version_of(version: Seq<char>) -> Seq<char> {
    if version.contains('/') {
        version.skip(first_index_of(version, '/') + 1)
    } else {
        VERSION_UNKNOWN@
    }
}

/// The user agent that a request with these headers is traced with.
pub open spec fn user_agent_of(entries: Map<Seq<char>, Seq<Seq<u8>>>) -> Seq<char> {
    match first_value(entries, USER_AGENT@) {
        None => USER_AGENT_UNKNOWN@,
        Some(bytes) => if is_visible_text(bytes) {
            decode_utf8(bytes)
        } else {
            USER_AGENT_INVALID@
        },
    }
}

/// The attributes that every request has, in the order in which they are set.
pub open spec fn common_attributes_of(request: RequestHead) -> Seq<(Seq<char>, Seq<char>)> {
    seq![
        (HTTP_REQUEST_METHOD@, request.method@),
        (URL_FULL@, request.url@),
        (URL_PATH@, request.path@),
        (NETWORK_PROTOCOL_NAME@, PROTOCOL_HTTP@),
        (NETWORK_PROTOCOL_VERSION@, protocol_version_of(request.version@)),
        (USER_AGENT_ORIGINAL@, user_agent_of(header_entries(*request.headers))),
    ]
}

/// The attribute under `key` of a part that a request may lack.
pub open spec fn optional_attribute_of(key: Seq<char>, part: Option<&str>) -> Option<
    (Seq<char>, Seq<char>),
> {
    match part {
        Some(text) => Some((key, text@)),
        None => None,
    }
}

/// The view of an attribute that may be absent.
pub open spec fn view_of_attribute(attribute: Option<Attribute>) -> Option<(Seq<char>, Seq<char>)> {
    match attribute {
        Some(attribute) => Some(attribute@),
        None => None,
    }
}

/// The views of a list of attributes, in its order.
pub open spec fn views_of(attributes: Seq<Attribute>) -> Seq<(Seq<char>, Seq<char>)> {
    attributes.map_values(|a: Attribute| a@)
}

/// `str::split_once` with a character to split at: the text before its first
/// occurrence and the text after it, or nothing where it does not occur.
#[verifier::external_body]
pub(crate) fn split_once<'a>(text: &'a str, delimiter: char) -> (parts: Option<(&'a str, &'a str)>)
    ensures
        match parts {
            Some((head, tail)) => text@ == head@ + seq![delimiter] + tail@ && !head@.contains(
                delimiter,
            ),
            None => !text@.contains(delimiter),
        },
{
    text.split_once(delimiter)
}

/// Where `text` is `head`, the character `c` and `tail`, and `head` holds no
/// `c`, the first `c` of `text` stands right behind `head`.
pub proof fn lemma_first_index_of_split(text: Seq<char>, head: Seq<char>, c: char, tail: Seq<char>)
    requires
        text == head + seq![c] + tail,
        !head.contains(c),
    ensures
        text.contains(c),
        first_index_of(text, c) == head.len(),
        text.skip(head.len() as int + 1) == tail,
    decreases head.len(),
{
    assert(text[head.len() as int] == c);
    if head.len() > 0 {
        let rest = head.skip(1);
        assert(text.skip(1) =~= rest + seq![c] + tail);
        lemma_first_index_of_split(text.skip(1), rest, c, tail);
    }
}

/// The header's name is one that the header map takes as it is written.
pub proof fn lemma_user_agent_name()
    ensures
        is_plain_name(USER_AGENT@),
{
    reveal_strlit("user-agent");
}

/// The version of the protocol in a text such as `HTTP/1.1`: what follows the
/// first `/`.
pub fn protocol_version(version: &str) -> (text: String)
    ensures
        text@ == protocol_version_of(version@),
{
    match split_once(version, '/') {
        Some((head, tail)) => {
            proof {
                lemma_first_index_of_split(version@, head@, '/', tail@);
            }
            tail.to_owned()
        },
        None => VERSION_UNKNOWN.to_owned(),
    }
}

/// The user agent that a request with these headers is traced with: the text
/// of its `user-agent` header, or a word that says why there is none.
pub fn user_agent(headers: &HeaderMap<HeaderValue>) -> (text: String)
    ensures
        text@ == user_agent_of(header_entries(*headers)),
{
    proof {
        lemma_user_agent_name();
    }
    match header_get(headers, USER_AGENT) {
        None => USER_AGENT_UNKNOWN.to_owned(),
        Some(value) => match value_to_str(value) {
            Some(text) => {
                proof {
                    vstd::utf8::encode_utf8_decode_utf8(text@);
                }
                text.to_owned()
            },
            None => USER_AGENT_INVALID.to_owned(),
        },
    }
}

/// The attribute under `key` of a part that a request may lack.
pub fn optional_attribute(key: &'static str, part: Option<&str>) -> (attribute: Option<Attribute>)
    ensures
        view_of_attribute(attribute) == optional_attribute_of(key@, part),
{
    match part {
        Some(text) => Some(Attribute { key, value: text.to_owned() }),
        None => None,
    }
}

/// The attributes of a request: method, URL, path, protocol and user agent,
/// and the query and the scheme where the request has them.
pub fn request_attributes(request: &RequestHead) -> (attributes: RequestAttributes)
    ensures
        views_of(attributes.common@) == common_attributes_of(*request),
        view_of_attribute(attributes.query) == optional_attribute_of(URL_QUERY@, request.query),
        view_of_attribute(attributes.scheme) == optional_attribute_of(URL_SCHEME@, request.scheme),
{
    let mut common: Vec<Attribute> = Vec::new();
    common.push(Attribute { key: HTTP_REQUEST_METHOD, value: request.method.to_owned() });
    common.push(Attribute { key: URL_FULL, value: request.url.to_owned() });
    common.push(Attribute { key: URL_PATH, value: request.path.to_owned() });
    common.push(Attribute { key: NETWORK_PROTOCOL_NAME, value: PROTOCOL_HTTP.to_owned() });
    common.push(
        Attribute { key: NETWORK_PROTOCOL_VERSION, value: protocol_version(request.version) },
    );
    common.push(Attribute { key: USER_AGENT_ORIGINAL, value: user_agent(request.headers) });
    RequestAttributes {
        common,
        query: optional_attribute(URL_QUERY, request.query),
        scheme: optional_attribute(URL_SCHEME, request.scheme),
    }
}

/// The call that hands over an attribute, where there is one.
pub open spec fn call_of(attribute: Option<(Seq<char>, Seq<char>)>) -> Seq<SpanCall> {
    match attribute {
        Some(attribute) => seq![SpanCall::Attribute(attribute)],
        None => Seq::empty(),
    }
}

/// The calls by which a request's attributes are handed to its span: one
/// call with the attributes that every request has, then one with the query
/// and one with the scheme, each where the request has it.
pub open spec fn calls_of(request: RequestHead) -> Seq<SpanCall> {
    seq![SpanCall::Attributes(common_attributes_of(request))] + call_of(
        optional_attribute_of(URL_QUERY@, request.query),
    ) + call_of(optional_attribute_of(URL_SCHEME@, request.scheme))
}

/// Gives the span of a request the request's attributes: the calls of
/// `calls_of` are made on it, in that order, and no other.
pub fn set_attributes_from_request(span: &mut TracedSpan, request: &RequestHead)
    ensures
        final(span).told() == old(span).told() + calls_of(*request),
{
    let attributes = request_attributes(request);
    span_set_attributes(span, attributes.common);
    if let Some(query) = attributes.query {
        span_set_attribute(span, query);
    }
    if let Some(scheme) = attributes.scheme {
        span_set_attribute(span, scheme);
    }
}

} // verus!
