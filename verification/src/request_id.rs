//! The request-identifier policy: which identifier a request carries through
//! the proxy, and what becomes of the `x-request-id` header on the way out.

use crate::header::{
    first_value, has_room, header_entries, header_get, header_remove, header_try_insert,
    header_value_bytes, is_plain_name, is_value_text, is_visible_text,
    value_from_static, value_from_str, value_is_empty, value_to_str,
};
use crate::uuid_text::{
    encode_simple_lower, is_lower_simple_uuid, is_uuid_text, lemma_lower_simple_is_uuid_text,
    lemma_uuid_text_is_visible, new_uuid, uuid_parses,
};
use http::header::{HeaderMap, HeaderValue};
use vstd::prelude::*;
use vstd::string::StringSliceAdditionalSpecFns;
use vstd::utf8::encode_utf8;

verus! {

/// The name of the header that carries the request identifier.
pub const X_REQUEST_ID: &'static str = "x-request-id";

/// The identifier that stands in when a fresh one cannot be made into a header value.
pub const UNKNOWN_REQUEST_ID: &'static str = "unknown-request-id";

/// What a `RequestId` is to the contracts: its kind and the bytes of its value.
pub enum RequestIdView {
    Propagate(Seq<u8>),
    Internal(Seq<u8>),
}

/// The identifier of one request: forwarded on the wire, or kept inside the proxy.
#[derive(Debug, PartialEq, Eq)]
pub enum RequestId {
    Propagate(HeaderValue),
    Internal(HeaderValue),
}

impl Clone for RequestId {
    fn clone(&self) -> (copy: Self)
        ensures
            copy@ == self@,
    {
        match self {
            RequestId::Propagate(id) => RequestId::Propagate(id.clone()),
            RequestId::Internal(id) => RequestId::Internal(id.clone()),
        }
    }
}

impl View for RequestId {
    type V = RequestIdView;

    open spec fn view(&self) -> RequestIdView {
        match *self {
            RequestId::Propagate(value) => RequestIdView::Propagate(header_value_bytes(value)),
            RequestId::Internal(value) => RequestIdView::Internal(header_value_bytes(value)),
        }
    }
}

impl RequestIdView {
    /// The bytes of the identifier, whatever its kind.
    pub open spec fn bytes(self) -> Seq<u8> {
        match self {
            RequestIdView::Propagate(bytes) => bytes,
            RequestIdView::Internal(bytes) => bytes,
        }
    }
}

/// The view of an identifier that may be absent.
pub open spec fn view_of(id: Option<RequestId>) -> Option<RequestIdView> {
    match id {
        Some(id) => Some(id@),
        None => None,
    }
}

/// The identifier that a request with these headers brings along: the first
/// value of its `x-request-id` header where that reads as a UUID.
pub open spec fn incoming_id(entries: Map<Seq<char>, Seq<Seq<u8>>>) -> Option<RequestIdView> {
    match first_value(entries, X_REQUEST_ID@) {
        Some(bytes) => if is_uuid_text(bytes) {
            Some(RequestIdView::Propagate(bytes))
        } else {
            None
        },
        None => None,
    }
}

/// The header's name is one that the header map takes as it is written.
pub proof fn lemma_header_names()
    ensures
        is_plain_name(X_REQUEST_ID@),
{
    reveal_strlit("x-request-id");
}

impl RequestId {
    /// Reads the identifier that a request brings along. A missing header and
    /// a value that is not a UUID both give none.
    pub fn from_request(headers: &HeaderMap<HeaderValue>) -> (id: Option<RequestId>)
        ensures
            view_of(id) == incoming_id(header_entries(*headers)),
    {
        proof {
            lemma_header_names();
        }
        let value = match header_get(headers, X_REQUEST_ID) {
            Some(value) => value,
            None => { return None; },
        };
        let accepted = match value_to_str(value) {
            Some(text) => uuid_parses(text),
            None => false,
        };
        proof {
            if is_uuid_text(header_value_bytes(*value)) {
                lemma_uuid_text_is_visible(header_value_bytes(*value));
            }
        }
        if !accepted {
            None
        } else if value_is_empty(value) {
            None
        } else {
            Some(RequestId::Propagate(value.clone()))
        }
    }

    /// A copy of the identifier's value.
    pub fn to_value(&self) -> (value: HeaderValue)
        ensures
            header_value_bytes(value) == self@.bytes(),
    {
        match self {
            RequestId::Propagate(id) => id.clone(),
            RequestId::Internal(id) => id.clone(),
        }
    }

    /// The value of an identifier that is forwarded on the wire.
    pub fn propagate_ref(&self) -> (value: Option<&HeaderValue>)
        ensures
            value == match *self {
                RequestId::Propagate(id) => Some(&id),
                RequestId::Internal(_) => None,
            },
    {
        match self {
            RequestId::Propagate(id) => Some(id),
            RequestId::Internal(_) => None,
        }
    }

    /// The value of an identifier that stays inside the proxy.
    pub fn internal_ref(&self) -> (value: Option<&HeaderValue>)
        ensures
            value == match *self {
                RequestId::Internal(id) => Some(&id),
                RequestId::Propagate(_) => None,
            },
    {
        match self {
            RequestId::Internal(id) => Some(id),
            RequestId::Propagate(_) => None,
        }
    }
}

impl AsRef<HeaderValue> for RequestId {
    /// The value of the identifier, whatever its kind.
    fn as_ref(&self) -> (value: &HeaderValue)
        ensures
            value == match *self {
                RequestId::Propagate(id) => &id,
                RequestId::Internal(id) => &id,
            },
    {
        match self {
            RequestId::Propagate(id) => id,
            RequestId::Internal(id) => id,
        }
    }
}

/// Where the identifier of a request comes from.
#[derive(Debug, Clone, Copy, PartialEq, Eq, Structural)]
pub enum IdSource {
    /// The request brought it along, and it is kept.
    Incoming,
    /// The proxy makes a new one.
    Fresh,
    /// The request gets none.
    Absent,
}

/// What happens to the `x-request-id` header of the outbound request.
#[derive(Debug, Clone, Copy, PartialEq, Eq, Structural)]
pub enum HeaderAction {
    /// The fresh identifier is written over whatever the header held.
    Insert,
    /// The header is taken out.
    Remove,
    /// The header stays as it came.
    Keep,
}

/// The outcome of the policy for one request.
#[derive(Debug, Clone, Copy, PartialEq, Eq, Structural)]
pub struct Decision {
    pub source: IdSource,
    /// Whether the identifier counts as generated by the proxy.
    pub generated: bool,
    /// Whether the identifier goes on the wire.
    pub propagate: bool,
    pub action: HeaderAction,
}

/// The three settings of the policy.
pub struct Policy {
    pub generate: bool,
    pub preserve_external: bool,
    pub always_set_in_response: bool,
}

/// The policy's outcome, in the order in which it is reached: first the source
/// of the identifier, then whether it is propagated, then the header.
pub open spec fn decide(
    policy: Policy,
    incoming: bool,
    tracing: bool,
    access_log: bool,
) -> Decision {
    let (source, generated) = if incoming && policy.preserve_external {
        (IdSource::Incoming, false)
    } else if policy.generate {
        (IdSource::Fresh, true)
    } else if tracing {
        (IdSource::Fresh, true)
    } else if access_log {
        (IdSource::Fresh, false)
    } else {
        (IdSource::Absent, false)
    };
    let propagate = (incoming && policy.preserve_external) || policy.generate;
    let action = if propagate && generated {
        HeaderAction::Insert
    } else if !propagate && incoming {
        HeaderAction::Remove
    } else {
        HeaderAction::Keep
    };
    Decision { source, generated, propagate, action }
}

/// The identifier with the kind that the decision gives it.
pub open spec fn id_of_kind(propagate: bool, bytes: Seq<u8>) -> RequestIdView {
    if propagate {
        RequestIdView::Propagate(bytes)
    } else {
        RequestIdView::Internal(bytes)
    }
}

/// Whether `id` is what the decision `d` leaves a request with that brought
/// `incoming` along. A fresh identifier is random: of it the predicate fixes
/// the kind and the form, 32 hexadecimal digits in lower case.
pub open spec fn settles(
    d: Decision,
    incoming: Option<RequestIdView>,
    id: Option<RequestIdView>,
) -> bool {
    match d.source {
        IdSource::Incoming => incoming matches Some(brought) && id == Some(
            id_of_kind(d.propagate, brought.bytes()),
        ),
        IdSource::Fresh => id matches Some(fresh) && fresh == id_of_kind(
            d.propagate,
            fresh.bytes(),
        ) && is_lower_simple_uuid(fresh.bytes()),
        IdSource::Absent => id is None,
    }
}

/// The entries of the outbound request's headers, given those of the inbound
/// one and the identifier that the request was left with.
pub open spec fn outbound_entries(
    entries: Map<Seq<char>, Seq<Seq<u8>>>,
    action: HeaderAction,
    id: Option<RequestIdView>,
) -> Map<Seq<char>, Seq<Seq<u8>>> {
    match action {
        HeaderAction::Insert => match id {
            Some(id) => entries.insert(X_REQUEST_ID@, seq![id.bytes()]),
            None => entries,
        },
        HeaderAction::Remove => entries.remove(X_REQUEST_ID@),
        HeaderAction::Keep => entries,
    }
}

/// The view of an identifier that is passed by reference and may be absent.
pub open spec fn view_of_ref(id: Option<&RequestId>) -> Option<RequestIdView> {
    match id {
        Some(id) => Some(id@),
        None => None,
    }
}

/// The entries of a response's headers once the policy has seen it.
pub open spec fn stamped_entries(
    policy: Policy,
    entries: Map<Seq<char>, Seq<Seq<u8>>>,
    id: Option<&HeaderValue>,
) -> Map<Seq<char>, Seq<Seq<u8>>> {
    match id {
        Some(id) if policy.always_set_in_response => entries.insert(
            X_REQUEST_ID@,
            seq![header_value_bytes(*id)],
        ),
        _ => entries,
    }
}

/// The view of what `try_apply_policy` hands back.
pub open spec fn view_of_outcome(outcome: Result<Option<RequestId>, HeaderMapFull>) -> Result<
    Option<RequestIdView>,
    HeaderMapFull,
> {
    match outcome {
        Ok(id) => Ok(view_of(id)),
        Err(error) => Err(error),
    }
}

/// Whether the policy, with the decision `d`, has been applied to a request
/// that brought `incoming` along and whose headers held `before`. Either the
/// request is left with the identifier that `d` settles and its headers are
/// those that go out; or the identifier was to be written into the header,
/// the map refused it for want of room, and the headers are as they were.
pub open spec fn policy_applied(
    d: Decision,
    incoming: Option<RequestIdView>,
    before: Map<Seq<char>, Seq<Seq<u8>>>,
    outcome: Result<Option<RequestIdView>, HeaderMapFull>,
    after: Map<Seq<char>, Seq<Seq<u8>>>,
) -> bool {
    match outcome {
        Ok(id) => settles(d, incoming, id) && after == outbound_entries(before, d.action, id),
        Err(_) => d.action == HeaderAction::Insert && !has_room(before) && after == before,
    }
}

/// The header map has refused a further name.
#[derive(Debug, Clone, Copy, PartialEq, Eq, Structural)]
pub struct HeaderMapFull;

/// The settings of the request-identifier policy. It holds no state, and one
/// value serves every request.
#[derive(Debug, Clone, Copy)]
pub struct RequestIdManager {
    generate_request_id: bool,
    preserve_external_request_id: bool,
    always_set_request_id_in_response: bool,
}

impl View for RequestIdManager {
    type V = Policy;

    closed spec fn view(&self) -> Policy {
        Policy {
            generate: self.generate_request_id,
            preserve_external: self.preserve_external_request_id,
            always_set_in_response: self.always_set_request_id_in_response,
        }
    }
}

/// The header value with the bytes of `text`, or with those of `fallback`
/// where `text` holds a byte that no header value may hold.
pub fn value_or_fallback(text: &str, fallback: &'static str) -> (value: HeaderValue)
    requires
        is_visible_text(fallback.spec_bytes()),
    ensures
        header_value_bytes(value) == if is_value_text(text.spec_bytes()) {
            text.spec_bytes()
        } else {
            fallback.spec_bytes()
        },
{
    match value_from_str(text) {
        Some(value) => value,
        None => value_from_static(fallback),
    }
}

impl RequestIdManager {
    /// A policy with the three settings as given.
    pub fn new(
        generate_request_id: bool,
        preserve_external_request_id: bool,
        always_set_request_id_in_response: bool,
    ) -> (manager: Self)
        ensures
            manager@ == (Policy {
                generate: generate_request_id,
                preserve_external: preserve_external_request_id,
                always_set_in_response: always_set_request_id_in_response,
            }),
    {
        Self {
            generate_request_id,
            preserve_external_request_id,
            always_set_request_id_in_response,
        }
    }

    /// The policy's outcome for a request that brings an identifier along
    /// (`incoming`) or not, with tracing and the access log on or off.
    pub fn decide(&self, incoming: bool, tracing_enabled: bool, access_log_enabled: bool) -> (d:
        Decision)
        ensures
            d == decide(self@, incoming, tracing_enabled, access_log_enabled),
    {
        let preserved = incoming && self.preserve_external_request_id;
        let propagate = preserved || self.generate_request_id;
        let fresh = self.generate_request_id || tracing_enabled;
        if preserved {
            Decision {
                source: IdSource::Incoming,
                generated: false,
                propagate,
                action: HeaderAction::Keep,
            }
        } else if fresh || access_log_enabled {
            Decision {
                source: IdSource::Fresh,
                generated: fresh,
                propagate,
                action: if propagate {
                    HeaderAction::Insert
                } else if incoming {
                    HeaderAction::Remove
                } else {
                    HeaderAction::Keep
                },
            }
        } else {
            Decision {
                source: IdSource::Absent,
                generated: false,
                propagate,
                action: if incoming {
                    HeaderAction::Remove
                } else {
                    HeaderAction::Keep
                },
            }
        }
    }

    /// A fresh identifier: a random UUID in the simple form, lower case.
    pub fn generate_new_id() -> (id: HeaderValue)
        ensures
            is_lower_simple_uuid(header_value_bytes(id)),
    {
        let text = encode_simple_lower(new_uuid());
        proof {
            lemma_sentinel_is_visible();
            lemma_lower_simple_is_uuid_text(encode_utf8(text@));
            lemma_uuid_text_is_visible(encode_utf8(text@));
        }
        value_or_fallback(text.as_str(), UNKNOWN_REQUEST_ID)
    }

    /// Settles the identifier of a request and puts its headers in the state
    /// in which they go to the next hop. Where the identifier is to be written
    /// into the header, the map must be sure to take it.
    pub fn apply_policy(
        &self,
        headers: &mut HeaderMap<HeaderValue>,
        tracing_enabled: bool,
        access_log_enabled: bool,
        incoming_request_id: Option<&RequestId>,
    ) -> (id: Option<RequestId>)
        requires
            decide(
                self@,
                incoming_request_id is Some,
                tracing_enabled,
                access_log_enabled,
            ).action == HeaderAction::Insert ==> has_room(header_entries(*old(headers))),
        ensures
            settles(
                decide(self@, incoming_request_id is Some, tracing_enabled, access_log_enabled),
                view_of_ref(incoming_request_id),
                view_of(id),
            ),
            header_entries(*final(headers)) == outbound_entries(
                header_entries(*old(headers)),
                decide(
                    self@,
                    incoming_request_id is Some,
                    tracing_enabled,
                    access_log_enabled,
                ).action,
                view_of(id),
            ),
    {
        self.try_apply_policy(
            headers,
            tracing_enabled,
            access_log_enabled,
            incoming_request_id,
        ).unwrap()
    }

    /// As `apply_policy`, for any header map. The error comes where the
    /// identifier is to be written into the header and the map refuses it:
    /// then nothing is changed. A map with room never refuses.
    pub fn try_apply_policy(
        &self,
        headers: &mut HeaderMap<HeaderValue>,
        tracing_enabled: bool,
        access_log_enabled: bool,
        incoming_request_id: Option<&RequestId>,
    ) -> (outcome: Result<Option<RequestId>, HeaderMapFull>)
        ensures
            policy_applied(
                decide(self@, incoming_request_id is Some, tracing_enabled, access_log_enabled),
                view_of_ref(incoming_request_id),
                header_entries(*old(headers)),
                view_of_outcome(outcome),
                header_entries(*final(headers)),
            ),
    {
        proof {
            lemma_header_names();
        }
        let d = self.decide(incoming_request_id.is_some(), tracing_enabled, access_log_enabled);
        let authoritative_id = match d.source {
            IdSource::Incoming => match incoming_request_id {
                Some(id) => Some(id.to_value()),
                None => None,
            },
            IdSource::Fresh => Some(Self::generate_new_id()),
            IdSource::Absent => None,
        };
        match d.action {
            HeaderAction::Insert => {
                if let Some(value) = authoritative_id.as_ref() {
                    if !header_try_insert(headers, X_REQUEST_ID, value.clone()) {
                        return Err(HeaderMapFull);
                    }
                }
            },
            HeaderAction::Remove => {
                header_remove(headers, X_REQUEST_ID);
            },
            HeaderAction::Keep => {},
        }
        Ok(
            match authoritative_id {
                Some(value) => if d.propagate {
                    Some(RequestId::Propagate(value))
                } else {
                    Some(RequestId::Internal(value))
                },
                None => None,
            },
        )
    }

    /// Stamps the identifier onto a response where the policy asks for it:
    /// where `always_set_in_response` is set and there is an identifier, it
    /// becomes the only value of the response's `x-request-id` header. The
    /// map must then be sure to take it.
    pub fn apply_to(&self, headers: &mut HeaderMap<HeaderValue>, req_id: Option<&HeaderValue>)
        requires
            self@.always_set_in_response && req_id is Some ==> has_room(
                header_entries(*old(headers)),
            ),
        ensures
            header_entries(*final(headers)) == stamped_entries(
                self@,
                header_entries(*old(headers)),
                req_id,
            ),
    {
        self.try_apply_to(headers, req_id).unwrap()
    }

    /// As `apply_to`, for any header map. The error comes where the
    /// identifier is to be written and the map refuses it: then nothing is
    /// changed. A map with room never refuses.
    pub fn try_apply_to(
        &self,
        headers: &mut HeaderMap<HeaderValue>,
        req_id: Option<&HeaderValue>,
    ) -> (outcome: Result<(), HeaderMapFull>)
        ensures
            outcome is Err ==> self@.always_set_in_response && req_id is Some && !has_room(
                header_entries(*old(headers)),
            ),
            header_entries(*final(headers)) == if outcome is Ok {
                stamped_entries(self@, header_entries(*old(headers)), req_id)
            } else {
                header_entries(*old(headers))
            },
    {
        proof {
            lemma_header_names();
        }
        if self.always_set_request_id_in_response {
            if let Some(id) = req_id {
                if !header_try_insert(headers, X_REQUEST_ID, id.clone()) {
                    return Err(HeaderMapFull);
                }
            }
        }
        Ok(())
    }
}

/// The stand-in identifier is made of visible ASCII, so it is a header value.
pub proof fn lemma_sentinel_is_visible()
    ensures
        is_visible_text(UNKNOWN_REQUEST_ID.spec_bytes()),
{
    reveal_strlit("unknown-request-id");
    vstd::string::is_ascii_spec_bytes(UNKNOWN_REQUEST_ID);
}

/// The decision table: for every setting of the policy, with or without an
/// incoming identifier, with tracing and the access log on or off, the
/// outcome in closed form.
pub proof fn lemma_decision_table(policy: Policy, incoming: bool, tracing: bool, access_log: bool)
    ensures
        ({
            let d = decide(policy, incoming, tracing, access_log);
            let preserved = incoming && policy.preserve_external;
            &&& d.propagate == (preserved || policy.generate)
            &&& (d.source == IdSource::Incoming) == preserved
            &&& (d.source == IdSource::Fresh) == (!preserved && (policy.generate || tracing
                || access_log))
            &&& (d.source == IdSource::Absent) == (!preserved && !policy.generate && !tracing
                && !access_log)
            &&& (d.action == HeaderAction::Insert) == (policy.generate && !preserved)
            &&& (d.action == HeaderAction::Remove) == (incoming && !policy.preserve_external
                && !policy.generate)
            &&& (d.action == HeaderAction::Keep) == (preserved || (!incoming && !policy.generate))
        }),
{
}

/// The policy in closed form, for every setting, every incoming identifier
/// and every header map. The request is left without an identifier exactly
/// where none is kept and generation, tracing and the access log are all
/// off. An identifier is propagated exactly where the incoming one is kept or
/// generation is on, and internal otherwise; a kept one is the incoming one,
/// any other is fresh. The header takes the fresh identifier as its only
/// value where that is propagated, loses its values where an incoming
/// identifier is not propagated, and is left alone otherwise: an internal
/// identifier is never written.
pub proof fn lemma_policy_in_closed_form(
    policy: Policy,
    entries: Map<Seq<char>, Seq<Seq<u8>>>,
    incoming: Option<RequestIdView>,
    tracing: bool,
    access_log: bool,
    id: Option<RequestIdView>,
)
    requires
        settles(decide(policy, incoming is Some, tracing, access_log), incoming, id),
    ensures
        ({
            let kept = incoming is Some && policy.preserve_external;
            let propagated = kept || policy.generate;
            let out = outbound_entries(
                entries,
                decide(policy, incoming is Some, tracing, access_log).action,
                id,
            );
            &&& id is None <==> !kept && !policy.generate && !tracing && !access_log
            &&& id matches Some(v) ==> {
                &&& v is Propagate <==> propagated
                &&& v is Internal <==> !propagated
                &&& kept ==> v == RequestIdView::Propagate(incoming.unwrap().bytes())
                &&& !kept ==> is_lower_simple_uuid(v.bytes())
            }
            &&& out == if propagated && !kept {
                entries.insert(X_REQUEST_ID@, seq![id.unwrap().bytes()])
            } else if !propagated && incoming is Some {
                entries.remove(X_REQUEST_ID@)
            } else {
                entries
            }
            &&& (id matches Some(v) && v is Internal) ==> out == entries || out == entries.remove(
                X_REQUEST_ID@,
            )
        }),
{
}

/// Only a fresh identifier is ever written into the header, and an identifier
/// that stays inside the proxy never is.
pub proof fn lemma_insert_is_fresh_and_propagated(
    policy: Policy,
    incoming: bool,
    tracing: bool,
    access_log: bool,
)
    ensures
        ({
            let d = decide(policy, incoming, tracing, access_log);
            d.action == HeaderAction::Insert ==> d.source == IdSource::Fresh && d.generated
                && d.propagate
        }),
{
}

/// An incoming identifier that the policy preserves goes out as it came: the
/// header is left alone, and the request keeps that identifier, propagated.
pub proof fn lemma_preserved_goes_out_verbatim(
    policy: Policy,
    entries: Map<Seq<char>, Seq<Seq<u8>>>,
    brought: RequestIdView,
    tracing: bool,
    access_log: bool,
    id: Option<RequestIdView>,
)
    requires
        policy.preserve_external,
        settles(decide(policy, true, tracing, access_log), Some(brought), id),
    ensures
        id == Some(RequestIdView::Propagate(brought.bytes())),
        outbound_entries(entries, decide(policy, true, tracing, access_log).action, id) == entries,
{
}

/// With nothing incoming and generation off, the request goes out with the
/// headers it came with. It is left without an identifier, or with an internal
/// one where tracing or the access log is on.
pub proof fn lemma_quiet_policy_leaves_headers(
    policy: Policy,
    entries: Map<Seq<char>, Seq<Seq<u8>>>,
    tracing: bool,
    access_log: bool,
    id: Option<RequestIdView>,
)
    requires
        !policy.generate,
        settles(decide(policy, false, tracing, access_log), None, id),
    ensures
        outbound_entries(entries, decide(policy, false, tracing, access_log).action, id)
            == entries,
        id is Some ==> id.unwrap() is Internal,
        id is None <==> !tracing && !access_log,
{
}

/// A response is left as it is unless `always_set_in_response` is set and
/// there is an identifier to stamp it with.
pub proof fn lemma_unasked_response_is_left(
    policy: Policy,
    entries: Map<Seq<char>, Seq<Seq<u8>>>,
    id: Option<&HeaderValue>,
)
    requires
        !policy.always_set_in_response || id is None,
    ensures
        stamped_entries(policy, entries, id) == entries,
{
}

/// A header value that does not read as a UUID counts for nothing: the
/// request is read as one without the header.
pub proof fn lemma_malformed_is_absent(entries: Map<Seq<char>, Seq<Seq<u8>>>)
    requires
        first_value(entries, X_REQUEST_ID@) matches Some(bytes) && !is_uuid_text(bytes),
    ensures
        incoming_id(entries) is None,
        incoming_id(entries) == incoming_id(entries.remove(X_REQUEST_ID@)),
{
}

/// What the next hop reads from the outbound request is the identifier that
/// the request was left with where that is propagated, and nothing where it
/// is internal or absent.
pub proof fn lemma_next_hop_reads_propagated(
    policy: Policy,
    entries: Map<Seq<char>, Seq<Seq<u8>>>,
    tracing: bool,
    access_log: bool,
    id: Option<RequestIdView>,
)
    requires
        settles(
            decide(policy, incoming_id(entries) is Some, tracing, access_log),
            incoming_id(entries),
            id,
        ),
    ensures
        ({
            let d = decide(policy, incoming_id(entries) is Some, tracing, access_log);
            incoming_id(outbound_entries(entries, d.action, id)) == if d.propagate {
                id
            } else {
                None
            }
        }),
{
    if decide(policy, incoming_id(entries) is Some, tracing, access_log).action
        == HeaderAction::Insert {
        lemma_lower_simple_is_uuid_text(id.unwrap().bytes());
    }
}

} // verus!
