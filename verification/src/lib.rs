//! Observability substrate for an HTTP proxy's data plane.
//!
//! - [`request_id`]: the policy that settles which identifier a request
//!   carries, and what becomes of its `x-request-id` header.
//! - [`body_with_metrics`]: the byte count of a streamed body and the
//!   completion that reports it, delivered once however the stream ends.
//! - [`span_state`]: the holder of a request's server and client spans.
//! - [`tracing_attributes`]: the attributes that a request gives to its span.
//! - [`header`] and [`uuid_text`]: what the contracts above say of the `http`
//!   and `uuid` crates.

pub mod body_with_metrics;
pub mod header;
pub mod request_id;
pub mod span_state;
pub mod tracing_attributes;
pub mod uuid_text;
