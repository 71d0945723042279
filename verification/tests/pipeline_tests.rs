use recognition_relay::client::{ApiClient, Credentials};
use recognition_relay::convert::{build_outgoing, prepare_convert, triage, Disposition};
use recognition_relay::error::{ConfigError, ServiceError};
use recognition_relay::event::{Event, Payload};
use recognition_relay::filter::{Filter, FilterConfig};

fn credentials() -> Credentials {
    Credentials {
        apikey: "SECRET-REDACTED".to_string(),
        url: "http://upstream.example".to_string(),
    }
}

fn client(fix_wav_type: bool) -> ApiClient {
    ApiClient::new(credentials(), fix_wav_type).unwrap()
}

fn inbound_event() -> Event {
    Event {
        id: "4711".to_string(),
        source: "test://sender".to_string(),
        ty: "b".to_string(),
        subject: Some("call-17".to_string()),
        time: Some("2020-03-16T11:11:11Z".to_string()),
        datacontenttype: Some("audio/vnd.wave".to_string()),
        dataschema: None,
        data: Some(Payload::Binary(vec![1, 2, 3])),
    }
}

fn upstream_result() -> serde_json::Value {
    serde_json::from_str("{\"results\":[\"hello\"]}").unwrap()
}

#[test]
fn test_needs_wav_fix() {
    assert_eq!(ApiClient::needs_wav_fix(""), false);
    assert_eq!(ApiClient::needs_wav_fix("//////"), false);
    assert_eq!(ApiClient::needs_wav_fix("audio/wav"), false);
    assert_eq!(ApiClient::needs_wav_fix("audio/vnd.wave"), true);
    assert_eq!(ApiClient::needs_wav_fix("audio/vnd.wave; codec=1"), true);
}

#[test]
fn normalization_policy() {
    let enabled = client(true);
    assert_eq!(enabled.request_content_type(""), "");
    assert_eq!(enabled.request_content_type("//////"), "//////");
    assert_eq!(enabled.request_content_type("audio/wav"), "audio/wav");
    assert_eq!(enabled.request_content_type("audio/vnd.wave"), "audio/wav");
    assert_eq!(enabled.request_content_type("audio/vnd.wave; codec=1"), "audio/wav");
    // MIME names are case-insensitive: the parser lowercases them.
    assert_eq!(enabled.request_content_type("Audio/Vnd.Wave"), "audio/wav");

    let disabled = client(false);
    assert_eq!(disabled.request_content_type("audio/vnd.wave"), "audio/vnd.wave");
}

#[test]
fn endpoint_resolution() {
    let c = client(true);
    assert_eq!(c.endpoint, "http://upstream.example/v1/recognize");
}

#[test]
fn endpoint_is_normalized_by_parsing() {
    let creds = Credentials {
        apikey: "SECRET-REDACTED".to_string(),
        url: "HTTP://Upstream.Example".to_string(),
    };
    let c = ApiClient::new(creds, true).unwrap();
    assert_eq!(c.endpoint, "http://upstream.example/v1/recognize");
}

#[test]
fn malformed_base_url_is_a_config_error() {
    let bad = Credentials {
        apikey: "SECRET-REDACTED".to_string(),
        url: "not a url".to_string(),
    };
    match ApiClient::new(bad, true) {
        Err(ConfigError::InvalidBaseUrl { details }) => assert_eq!(details, "not a url"),
        Ok(_) => panic!("a relative base URL must be refused"),
    }
}

#[test]
fn missing_content_type_is_invalid_request() {
    let c = client(true);
    for data in [
        None,
        Some(Payload::Binary(vec![1])),
        Some(Payload::Text("hi".to_string())),
        Some(Payload::Structured(upstream_result())),
    ] {
        let mut event = inbound_event();
        event.datacontenttype = None;
        event.data = data;
        match prepare_convert(&c, &event) {
            Err(e @ ServiceError::InvalidRequest { .. }) => {
                assert_eq!(e.message(), "Invalid request: Missing data-content-type");
                assert_eq!(e.name(), "InvalidRequest");
                assert_eq!(e.status_code(), 406);
            }
            _ => panic!("an event without data-content-type must fail with invalid-request"),
        }
    }
}

#[test]
fn empty_content_type_is_invalid_request() {
    let c = client(true);
    for data in [
        None,
        Some(Payload::Binary(vec![1])),
        Some(Payload::Text("hi".to_string())),
    ] {
        let mut event = inbound_event();
        event.datacontenttype = Some(String::new());
        event.data = data;
        match prepare_convert(&c, &event) {
            Err(e @ ServiceError::InvalidRequest { .. }) => {
                assert_eq!(e.message(), "Invalid request: Empty data-content-type");
                assert_eq!(e.status_code(), 406);
            }
            _ => panic!("an event with an empty data-content-type must fail with invalid-request"),
        }
    }
}

#[test]
fn non_binary_payload_is_invalid_request() {
    let c = client(true);
    for data in [
        None,
        Some(Payload::Text("structured".to_string())),
        Some(Payload::Structured(upstream_result())),
    ] {
        let mut event = inbound_event();
        event.data = data;
        match prepare_convert(&c, &event) {
            Err(e @ ServiceError::InvalidRequest { .. }) => {
                assert_eq!(e.message(), "Invalid request: Wrong data type, must be 'binary'");
            }
            _ => panic!("a non-binary payload must fail with invalid-request"),
        }
    }
}

#[test]
fn qualifying_event_end_to_end() {
    let filter = Filter::from_config(&FilterConfig {
        types: "a, b, c".to_string(),
        subjects: String::new(),
        data_content_types: String::new(),
    });
    let c = client(true);
    let event = inbound_event();

    let request = match triage(&filter, &c, &event) {
        Ok(Disposition::Forward(request)) => request,
        _ => panic!("the event qualifies and must be forwarded"),
    };
    assert_eq!(request.url, "http://upstream.example/v1/recognize");
    assert_eq!(request.username, "apikey");
    assert_eq!(request.password, "SECRET-REDACTED");
    assert_eq!(request.content_type, "audio/wav");
    assert_eq!(request.body, vec![1, 2, 3]);

    let outgoing = build_outgoing(event, upstream_result());
    assert_eq!(outgoing.id, "4711");
    assert_eq!(outgoing.source, "test://sender");
    assert_eq!(outgoing.ty, "b");
    assert_eq!(outgoing.subject, Some("call-17".to_string()));
    assert_eq!(outgoing.time, Some("2020-03-16T11:11:11Z".to_string()));
    assert_eq!(outgoing.datacontenttype, Some("application/json".to_string()));
    assert_eq!(
        outgoing.dataschema,
        Some("https://cloud.ibm.com/services/speech-to-text/v1/recognize".to_string())
    );
    match &outgoing.data {
        Some(Payload::Structured(v)) => assert_eq!(v, &upstream_result()),
        _ => panic!("the outgoing payload must be the upstream JSON"),
    }
}

#[test]
fn rejected_event_is_skipped_without_a_call() {
    let filter = Filter::from_config(&FilterConfig {
        types: "a, b, c".to_string(),
        subjects: String::new(),
        data_content_types: String::new(),
    });
    let c = client(true);
    let mut event = inbound_event();
    event.ty = "x".to_string();

    match triage(&filter, &c, &event) {
        Ok(Disposition::Skip) => {}
        _ => panic!("a filtered-out event must be skipped, not processed or failed"),
    }
}

#[test]
fn conversion_is_deterministic() {
    let first = build_outgoing(inbound_event(), upstream_result());
    let second = build_outgoing(inbound_event(), upstream_result());
    assert_eq!(first.id, second.id);
    assert_eq!(first.source, second.source);
    assert_eq!(first.ty, second.ty);
    assert_eq!(first.subject, second.subject);
    assert_eq!(first.time, second.time);
    assert_eq!(first.datacontenttype, second.datacontenttype);
    assert_eq!(first.dataschema, second.dataschema);
    match (&first.data, &second.data) {
        (Some(Payload::Structured(a)), Some(Payload::Structured(b))) => assert_eq!(a, b),
        _ => panic!("both outgoing payloads must be the upstream JSON"),
    }
}

#[test]
fn error_taxonomy() {
    let invalid = ServiceError::invalid_request("nope".to_string());
    assert_eq!(invalid.name(), "InvalidRequest");
    assert_eq!(invalid.status_code(), 406);
    let body = invalid.error_response();
    assert_eq!(body.error, "InvalidRequest");
    assert_eq!(body.message, "Invalid request: nope");

    let builder = ServiceError::event_builder_error("missing id".to_string());
    assert_eq!(builder.name(), "EventBuilderError");
    assert_eq!(builder.status_code(), 406);
    assert_eq!(builder.error_response().message, "Event builder error: missing id");

    let upstream = ServiceError::client_error("boom".to_string(), Some(502));
    assert_eq!(upstream.name(), "ClientError");
    assert_eq!(upstream.status_code(), 502);
    assert_eq!(upstream.error_response().message, "Client Error: boom");

    let upstream_no_status = ServiceError::client_error("gone".to_string(), None);
    assert_eq!(upstream_no_status.status_code(), 400);
}
