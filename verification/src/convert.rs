//! The converter: validates an inbound event, decides whether and how the
//! upstream recognition call is made, and rebuilds the outgoing event from
//! the upstream result. The call itself is I/O and is performed by the
//! surrounding application between [`triage`] and [`build_outgoing`].

use vstd::prelude::*;
use vstd::string::StringExecFns;
use vstd::slice::slice_to_vec;
use crate::client::{needs_wav_fix_spec, normalized_content_type, ApiClient, RecognitionRequest};
use crate::error::ServiceError;
use crate::event::{Event, EventView, Payload, PayloadView};
use crate::filter::Filter;

verus! {

/// Whether the event carries what conversion needs: a non-empty
/// data-content-type attribute and a binary-encoded payload.
pub open spec fn convertible(e: EventView) -> bool {
    e.datacontenttype matches Some(ct) && ct.len() > 0 && (e.data matches Some(
        PayloadView::Binary(_),
    ))
}

/// What the outbound request for a convertible event must look like.
pub open spec fn request_for(client: ApiClient, ct: Seq<char>, body: Seq<u8>, r: RecognitionRequest) -> bool {
    r.url@ == client.endpoint@ && r.username@ == "apikey"@ && r.password@
        == client.credentials.apikey@ && r.content_type@ == normalized_content_type(
        ct,
        client.fix_wav_type,
    ) && r.body@ == body
}

/// The exact invalid-request failure owed for a non-convertible event: a
/// missing data-content-type is reported as such regardless of the payload,
/// an empty one likewise, and a usable one with a non-binary payload as the
/// wrong data type.
pub open spec fn rejection_for(e: EventView, err: ServiceError) -> bool {
    err matches ServiceError::InvalidRequest { details } && details@ == (
    if e.datacontenttype is None {
        "Missing data-content-type"@
    } else if e.datacontenttype->Some_0.len() == 0 {
        "Empty data-content-type"@
    } else {
        "Wrong data type, must be 'binary'"@
    })
}

/// Validates the inbound event and builds the outbound request. An event
/// with no data-content-type attribute fails with invalid-request regardless
/// of its payload, and so does one whose data-content-type is the empty
/// string; one with a usable data-content-type but a non-binary payload
/// fails with invalid-request as well; any other event yields the request.
pub fn prepare_convert(client: &ApiClient, event: &Event) -> (r: Result<
    RecognitionRequest,
    ServiceError,
>)
    ensures
        !convertible(event@) ==> (r matches Err(e) && rejection_for(event@, e)),
        convertible(event@) ==> (r matches Ok(q) && request_for(
            *client,
            event@.datacontenttype->Some_0,
            event@.data->Some_0->Binary_0,
            q,
        )),
{
    let content_type = match &event.datacontenttype {
        Some(ct) => ct,
        None => {
            return Err(
                ServiceError::invalid_request(String::from_str("Missing data-content-type")),
            );
        },
    };
    if content_type.as_str().is_empty() {
        return Err(ServiceError::invalid_request(String::from_str("Empty data-content-type")));
    }
    match &event.data {
        Some(Payload::Binary(blob)) => Ok(
            client.recognize_request(content_type.as_str(), slice_to_vec(blob.as_slice())),
        ),
        _ => Err(
            ServiceError::invalid_request(String::from_str("Wrong data type, must be 'binary'")),
        ),
    }
}

/// The decision taken for one inbound event before any I/O: dropped
/// silently, or forwarded upstream with a fully determined request.
pub enum Disposition {
    /// The filter rejected the event: a deliberate outcome, not an error;
    /// the caller answers with an empty "no content" response and makes no
    /// outbound call.
    Skip,
    /// The event qualifies: the caller performs exactly this request.
    Forward(RecognitionRequest),
}

/// The request-handling decision: an event the filter rejects is skipped —
/// no outbound call is made for it — and any other event is validated and
/// turned into its outbound request or its invalid-request failure.
pub fn triage(filter: &Filter, client: &ApiClient, event: &Event) -> (r: Result<
    Disposition,
    ServiceError,
>)
    ensures
        !filter.accepts(event@.ty, event@.subject, event@.datacontenttype) ==> (r matches Ok(d)
            && d is Skip),
        filter.accepts(event@.ty, event@.subject, event@.datacontenttype) ==> match r {
            Ok(d) => convertible(event@) && (d matches Disposition::Forward(q) && request_for(
                *client,
                event@.datacontenttype->Some_0,
                event@.data->Some_0->Binary_0,
                q,
            )),
            Err(e) => !convertible(event@) && rejection_for(event@, e),
        },
{
    if !filter.test(event) {
        return Ok(Disposition::Skip);
    }
    match prepare_convert(client, event) {
        Ok(q) => Ok(Disposition::Forward(q)),
        Err(e) => Err(e),
    }
}

/// The value of the outgoing event derived from an inbound one and the
/// upstream result: identifier, source, type, subject and time carried over
/// unchanged; the data-content-type replaced by `application/json`; the data
/// schema set to the fixed identifier of the recognition operation; and the
/// payload replaced by the upstream JSON result.
pub open spec fn outgoing_view(e: EventView, result: serde_json::Value) -> EventView {
    EventView {
        datacontenttype: Some("application/json"@),
        dataschema: Some("https://cloud.ibm.com/services/speech-to-text/v1/recognize"@),
        data: Some(PayloadView::Structured(result)),
        ..e
    }
}

/// Builds the outgoing event from the inbound one and the upstream result.
pub fn build_outgoing(event: Event, result: serde_json::Value) -> (r: Event)
    ensures
        r@ == outgoing_view(event@, result),
{
    let r = Event {
        datacontenttype: Some(String::from_str("application/json")),
        dataschema: Some(
            String::from_str("https://cloud.ibm.com/services/speech-to-text/v1/recognize"),
        ),
        data: Some(Payload::Structured(result)),
        ..event
    };
    proof {
        assert(r@ =~= outgoing_view(event@, result));
    }
    r
}

/// The full conversion of a qualifying wave event, for every such event and
/// every upstream result: when normalization is enabled and the event's
/// declared content type is the `audio` MIME type with subtype `vnd.wave`,
/// the outbound request a successful [`triage`] forwards carries the content
/// type `audio/wav` and the payload bytes verbatim; and the outgoing event
/// built from the upstream result preserves identifier, source, type,
/// subject and time, carries `application/json` and the fixed schema
/// identifier, and holds the upstream result as its payload.
pub proof fn lemma_wav_conversion(
    client: ApiClient,
    e: EventView,
    q: RecognitionRequest,
    result: serde_json::Value,
)
    requires
        client.fix_wav_type,
        convertible(e),
        needs_wav_fix_spec(e.datacontenttype->Some_0),
        request_for(client, e.datacontenttype->Some_0, e.data->Some_0->Binary_0, q),
    ensures
        q.content_type@ == "audio/wav"@,
        q.body@ == e.data->Some_0->Binary_0,
        outgoing_view(e, result).id == e.id,
        outgoing_view(e, result).source == e.source,
        outgoing_view(e, result).ty == e.ty,
        outgoing_view(e, result).subject == e.subject,
        outgoing_view(e, result).time == e.time,
        outgoing_view(e, result).datacontenttype == Some("application/json"@),
        outgoing_view(e, result).dataschema == Some(
            "https://cloud.ibm.com/services/speech-to-text/v1/recognize"@,
        ),
        outgoing_view(e, result).data == Some(PayloadView::Structured(result)),
{
}

/// Converting the same inbound event twice with the same upstream result
/// yields identical outgoing events: the outgoing event is a function of the
/// inbound event and the result alone.
pub proof fn lemma_convert_deterministic(e1: EventView, e2: EventView, result: serde_json::Value)
    requires
        e1 == e2,
    ensures
        outgoing_view(e1, result) == outgoing_view(e2, result),
{
}

} // verus!
