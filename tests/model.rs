use routemaster::{ClientError, Event, EventType, Subscription, Timestamp, Url, Uuid};

#[test]
fn event_json_without_timestamp() {
    let event = Event::new(
        EventType::Created,
        Url::parse("https://x.test/a").unwrap(),
        "payload".to_string(),
        None,
    );
    assert_eq!(
        event.to_json(),
        r#"{"type":"created","url":"https://x.test/a","data":"payload","timestamp":null}"#
    );
}

#[test]
fn event_json_with_timestamp_and_escapes() {
    let ts = Timestamp::from_unix(1431648000, 0).unwrap();
    assert_eq!(ts.to_text(), "2015-05-15 00:00:00");
    let event = Event::new(
        EventType::Deleted,
        Url::parse("HTTPS://X.test").unwrap(),
        "a\"b\\c\nd\u{1}\u{e9}".to_string(),
        Some(ts),
    );
    assert_eq!(
        event.to_json(),
        "{\"type\":\"deleted\",\"url\":\"https://x.test/\",\"data\":\"a\\\"b\\\\c\\nd\\u0001\u{e9}\",\"timestamp\":\"2015-05-15 00:00:00\"}"
    );
}

#[test]
fn timestamp_fraction_and_range() {
    let ts = Timestamp::from_unix(0, 500_000_000).unwrap();
    assert_eq!(ts.to_text(), "1970-01-01 00:00:00.500");
    assert_eq!((ts.secs(), ts.nanos()), (0, 500_000_000));
    assert!(Timestamp::from_unix(i64::MAX, 0).is_none());
    assert!(Timestamp::from_unix(0, 2_000_000_000).is_none());
}

#[test]
fn event_type_names() {
    assert_eq!(EventType::Created.to_string(), "created");
    assert_eq!(EventType::Updated.to_string(), "updated");
    assert_eq!(EventType::Deleted.to_string(), "deleted");
    assert_eq!(EventType::Noop.to_string(), "noop");
}

#[test]
fn subscription_json_example() {
    let sub = Subscription {
        callback_url: Url::parse("https://sub.test/cb").unwrap(),
        topics: vec!["orders".to_string(), "riders".to_string()],
        uuid: None,
        timeout: None,
        max_events: Some(10),
    };
    assert_eq!(
        sub.to_json(),
        r#"{"callback":"https://sub.test/cb","topics":["orders","riders"],"uuid":null,"timeout":null,"max":10}"#
    );
}

#[test]
fn subscription_json_all_fields() {
    let sub = Subscription {
        callback_url: Url::parse("https://sub.test/cb?x=1").unwrap(),
        topics: vec!["a".to_string(), "a".to_string(), "b\"".to_string()],
        uuid: Some(Uuid::from_u128(0xa1a2a3a4b1b2c1c2d1d2d3d4d5d6d7d8)),
        timeout: Some(30000),
        max_events: Some(usize::MAX),
    };
    let max = usize::MAX.to_string();
    assert_eq!(
        sub.to_json(),
        format!(
            "{{\"callback\":\"https://sub.test/cb?x=1\",\"topics\":[\"a\",\"a\",\"b\\\"\"],\"uuid\":\"a1a2a3a4-b1b2-c1c2-d1d2-d3d4d5d6d7d8\",\"timeout\":\"30000\",\"max\":{}}}",
            max
        )
    );
}

#[test]
fn subscription_json_empty_topics_and_zero() {
    let sub = Subscription {
        callback_url: Url::parse("https://sub.test/").unwrap(),
        topics: vec![],
        uuid: None,
        timeout: Some(0),
        max_events: None,
    };
    assert_eq!(
        sub.to_json(),
        r#"{"callback":"https://sub.test/","topics":[],"uuid":null,"timeout":"0","max":null}"#
    );
}

#[test]
fn identifiers_parse_and_render() {
    let u = Uuid::parse_str("urn:uuid:67e55044-10b1-426f-9247-bb680e5fe0c8").unwrap();
    assert_eq!(u.hyphenated(), "67e55044-10b1-426f-9247-bb680e5fe0c8");
    assert_eq!(u.as_u128(), 0x67e5504410b1426f9247bb680e5fe0c8);
    assert!(matches!(Uuid::parse_str("not-a-uuid"), Err(ClientError::InvalidUuid(_))));
    assert!(matches!(Url::parse("no scheme"), Err(ClientError::UrlConstruction(_))));
}
