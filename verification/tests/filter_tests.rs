use recognition_relay::event::{Event, Payload};
use recognition_relay::filter::{Filter, FilterConfig};

fn event_with_type(ty: &str) -> Event {
    Event {
        id: String::new(),
        source: String::new(),
        ty: ty.to_string(),
        subject: None,
        time: None,
        datacontenttype: None,
        dataschema: None,
        data: None,
    }
}

fn config(types: &str, subjects: &str, data_content_types: &str) -> FilterConfig {
    FilterConfig {
        types: types.to_string(),
        subjects: subjects.to_string(),
        data_content_types: data_content_types.to_string(),
    }
}

#[test]
fn test_filter_1() {
    let filter: Filter = Filter::from_config(&config("a, b, c", "", ""));

    let event_pass = event_with_type("b");
    let event_reject = event_with_type("x");

    assert!(filter.test(&event_pass));
    assert!(!filter.test(&event_reject));
}

#[test]
fn split_empty_is_unconfigured() {
    assert!(Filter::split(&String::new()).is_none());
}

#[test]
fn split_tokens_on_comma_and_space() {
    let tokens = Filter::split(&"a, b, c".to_string()).unwrap();
    assert_eq!(tokens, vec!["a", "", "b", "", "c"]);

    let tokens = Filter::split(&"a,b".to_string()).unwrap();
    assert_eq!(tokens, vec!["a", "b"]);

    let tokens = Filter::split(&"a,".to_string()).unwrap();
    assert_eq!(tokens, vec!["a", ""]);

    let tokens = Filter::split(&"solo".to_string()).unwrap();
    assert_eq!(tokens, vec!["solo"]);
}

#[test]
fn unconfigured_dimensions_ignore_everything() {
    let filter = Filter::from_config(&config("", "", ""));
    assert!(filter.test(&event_with_type("anything")));
}

#[test]
fn configured_dimension_rejects_absent_value() {
    let filter = Filter::from_config(&config("", "orders", ""));
    // The event carries no subject, so the subject dimension rejects it.
    assert!(!filter.test(&event_with_type("a")));

    let mut with_subject = event_with_type("a");
    with_subject.subject = Some("orders".to_string());
    assert!(filter.test(&with_subject));

    let mut wrong_subject = event_with_type("a");
    wrong_subject.subject = Some("invoices".to_string());
    assert!(!filter.test(&wrong_subject));
}

#[test]
fn all_configured_dimensions_must_match() {
    let filter = Filter::from_config(&config("a,b", "s1 s2", "audio/wav"));
    let mut event = event_with_type("a");
    event.subject = Some("s2".to_string());
    event.datacontenttype = Some("audio/wav".to_string());
    event.data = Some(Payload::Binary(vec![0u8]));
    assert!(filter.test(&event));

    let mut wrong_ct = Event {
        datacontenttype: Some("text/plain".to_string()),
        ..event
    };
    assert!(!filter.test(&wrong_ct));
    wrong_ct.datacontenttype = None;
    assert!(!filter.test(&wrong_ct));
}
