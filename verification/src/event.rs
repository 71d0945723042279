//! The structured-event envelope this pipeline reads and produces, modeled as
//! plain values so every rule over it can be verified.

use vstd::prelude::*;

verus! {

/// The opaque JSON value returned by the recognition service. The pipeline
/// carries it through without interpreting its schema.
#[verifier::external_type_specification]
#[verifier::external_body]
pub struct ExValue(serde_json::Value);

/// The payload of an event. Only a binary payload is accepted for
/// conversion; a structured (JSON) payload is what outgoing events carry.
pub enum Payload {
    /// An opaque byte sequence, forwarded verbatim to the recognition call.
    Binary(Vec<u8>),
    /// A textual payload; invalid for this endpoint.
    Text(String),
    /// A structured JSON payload, as carried by outgoing events.
    Structured(serde_json::Value),
}

/// The mathematical value of a [`Payload`].
#[verifier::ext_equal]
pub enum PayloadView {
    Binary(Seq<u8>),
    Text(Seq<char>),
    Structured(serde_json::Value),
}

impl View for Payload {
    type V = PayloadView;

    open spec fn view(&self) -> PayloadView {
        match self {
            Payload::Binary(b) => PayloadView::Binary(b@),
            Payload::Text(t) => PayloadView::Text(t@),
            Payload::Structured(v) => PayloadView::Structured(*v),
        }
    }
}

/// A structured event: the attribute set of the envelope, with the payload
/// attached. Outgoing events are derived from inbound ones by replacing the
/// data-content-type, the data schema and the payload, and carrying every
/// other attribute over unchanged.
pub struct Event {
    /// The unique identifier of the event.
    pub id: String,
    /// The identifier of the context the event originated in.
    pub source: String,
    /// The type of occurrence the event describes.
    pub ty: String,
    /// The subject of the event, if any.
    pub subject: Option<String>,
    /// The timestamp of the occurrence, as carried on the wire.
    pub time: Option<String>,
    /// The declared MIME type of the payload.
    pub datacontenttype: Option<String>,
    /// The identifier of the schema the payload adheres to.
    pub dataschema: Option<String>,
    /// The payload itself.
    pub data: Option<Payload>,
}

/// The mathematical value of an [`Event`].
#[verifier::ext_equal]
pub struct EventView {
    pub id: Seq<char>,
    pub source: Seq<char>,
    pub ty: Seq<char>,
    pub subject: Option<Seq<char>>,
    pub time: Option<Seq<char>>,
    pub datacontenttype: Option<Seq<char>>,
    pub dataschema: Option<Seq<char>>,
    pub data: Option<PayloadView>,
}

impl View for Event {
    type V = EventView;

    open spec fn view(&self) -> EventView {
        EventView {
            id: self.id@,
            source: self.source@,
            ty: self.ty@,
            subject: self.subject.deep_view(),
            time: self.time.deep_view(),
            datacontenttype: self.datacontenttype.deep_view(),
            dataschema: self.dataschema.deep_view(),
            data: match &self.data {
                Some(p) => Some(p@),
                None => None,
            },
        }
    }
}

/// Borrows an optional owned string as an optional string slice.
pub fn opt_as_str(o: &Option<String>) -> (r: Option<&str>)
    ensures
        match r {
            Some(s) => o matches Some(t) && s@ == t@,
            None => o is None,
        },
{
    match o {
        Some(s) => Some(s.as_str()),
        None => None,
    }
}

} // verus!
