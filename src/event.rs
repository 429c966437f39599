//! Gateway events as they enter the pipeline, and normalized events as they
//! leave it.

use vstd::prelude::*;

verus! {

/// `rmp_serde::decode::Error`, the cause of a failed payload decode.
#[verifier::external_type_specification]
#[verifier::external_body]
pub struct ExDecodeError(rmp_serde::decode::Error);

/// Whether `b` is the MessagePack encoding of one JSON value.
pub uninterp spec fn msgpack_decodes(b: Seq<u8>) -> bool;

/// Relies on `rmp_serde::from_slice` into a JSON value: whether it succeeds
/// depends on the bytes alone.
#[verifier::external_body]
fn decode_msgpack_json(b: &[u8]) -> (r: Result<serde_json::Value, rmp_serde::decode::Error>)
    ensures
        r is Ok == msgpack_decodes(b@),
{
    rmp_serde::from_slice::<serde_json::Value>(b)
}

/// A raw event of the chat platform's gateway.
pub struct GatewayEvent {
    /// Opaque id of the event.
    pub id: String,
    /// Milliseconds since the epoch at which the event was received.
    pub ingress_timestamp: u64,
    /// The event type's tag, such as `MESSAGE_CREATE`.
    pub event_type: String,
    pub guild_id: u64,
    /// The MessagePack encoding of the event's JSON payload.
    pub inner: Vec<u8>,
}

/// A gateway event paired with its decoded JSON payload.
pub struct EventWithSource {
    inner: GatewayEvent,
    source: serde_json::Value,
}

impl EventWithSource {
    pub closed spec fn event(&self) -> GatewayEvent {
        self.inner
    }

    pub closed spec fn json(&self) -> serde_json::Value {
        self.source
    }

    /// Decodes the event's payload; fails where the payload is not the
    /// MessagePack encoding of a JSON value.
    pub fn decode(event: GatewayEvent) -> (r: Result<EventWithSource, rmp_serde::decode::Error>)
        ensures
            r is Ok == msgpack_decodes(event.inner@),
            r is Ok ==> r->Ok_0.event() == event,
    {
        match decode_msgpack_json(event.inner.as_slice()) {
            Ok(source) => Ok(EventWithSource { inner: event, source }),
            Err(err) => Err(err),
        }
    }

    /// The gateway event.
    pub fn gateway_event(&self) -> (r: &GatewayEvent)
        ensures
            *r == self.event(),
    {
        &self.inner
    }

    /// The decoded payload.
    pub fn source(&self) -> (r: &serde_json::Value)
        ensures
            *r == self.json(),
    {
        &self.source
    }

    /// The gateway event and its decoded payload.
    pub fn into_parts(self) -> (r: (GatewayEvent, serde_json::Value))
        ensures
            r.0 == self.event(),
            r.1 == self.json(),
    {
        (self.inner, self.source)
    }
}

/// The JSON fragments that a normalized event was made from.
pub struct EventSource {
    pub gateway: Option<serde_json::Value>,
    pub audit_log: Option<serde_json::Value>,
}

/// Which fragments populated a normalized event's source.
#[derive(Clone, Copy, Debug, PartialEq, Eq, Structural)]
pub enum Origin {
    Gateway,
    AuditLog,
    Hybrid,
    Internal,
}

pub open spec fn origin_spec(source: EventSource) -> Origin {
    match (source.gateway, source.audit_log) {
        (Some(_), Some(_)) => Origin::Hybrid,
        (Some(_), None) => Origin::Gateway,
        (None, Some(_)) => Origin::AuditLog,
        (None, None) => Origin::Internal,
    }
}

impl EventSource {
    /// Which fragments are populated.
    pub fn origin(&self) -> (r: Origin)
        ensures
            r == origin_spec(*self),
    {
        match (&self.gateway, &self.audit_log) {
            (Some(_), Some(_)) => Origin::Hybrid,
            (Some(_), None) => Origin::Gateway,
            (None, Some(_)) => Origin::AuditLog,
            (None, None) => Origin::Internal,
        }
    }
}

/// The values that the field sources of a split processor produce for one
/// event.
pub struct FieldValues {
    /// Code of the normalized event type.
    pub event_type: i32,
    /// Inputs from which a document id is derived downstream.
    pub id_params: Vec<u64>,
    pub timestamp: u64,
    pub reason: Option<String>,
    pub channel: Option<serde_json::Value>,
    pub agent: Option<serde_json::Value>,
    pub subject: Option<serde_json::Value>,
    pub auxiliary: Option<serde_json::Value>,
    pub content: serde_json::Value,
}

/// An event in the pipeline's uniform schema.
pub struct NormalizedEvent {
    pub id_params: Vec<u64>,
    pub timestamp: u64,
    pub source: EventSource,
    pub origin: Origin,
    pub event_type: i32,
    pub guild_id: u64,
    pub reason: Option<String>,
    pub audit_log_id: Option<u64>,
    pub channel: Option<serde_json::Value>,
    pub agent: Option<serde_json::Value>,
    pub subject: Option<serde_json::Value>,
    pub auxiliary: Option<serde_json::Value>,
    pub content: serde_json::Value,
}

} // verus!
