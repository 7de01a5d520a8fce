use routemaster::{Client, ClientError, Event, EventType, Method, Subscription, Url, Uuid};

fn client(base: &str) -> Client {
    let uuid = Uuid::parse_str("936DA01F9ABD4d9d80C702AF85C822A8").expect("Can't parse uuid");
    let url = Url::parse(base).expect("Can't parse URL");
    Client::new(url, uuid)
}

#[test]
fn it_works() {
    let uuid = Uuid::parse_str("936DA01F9ABD4d9d80C702AF85C822A8").expect("Can't parse uuid");
    let url = Url::parse("https://routemaster.url").expect("Can't parse URL");
    #[allow(unused_variables)]
    let client = Client::new(url, uuid);
    assert_eq!(
        client.username(),
        "936da01f-9abd-4d9d-80c7-02af85c822a8",
        "Failed creating client"
    );
    assert_eq!(client.url().as_str(), "https://routemaster.url/");
}

#[test]
fn subscribe_posts_subscription_json() {
    let c = client("https://svc.test/v1/");
    let sub = Subscription {
        callback_url: Url::parse("https://sub.test/cb").unwrap(),
        topics: vec!["orders".to_string(), "riders".to_string()],
        uuid: None,
        timeout: None,
        max_events: Some(10),
    };
    let req = c.subscribe(sub).unwrap();
    assert_eq!(req.method, Method::Post);
    assert_eq!(req.url.as_str(), "https://svc.test/v1/subscription");
    assert_eq!(req.username, "936da01f-9abd-4d9d-80c7-02af85c822a8");
    assert_eq!(
        req.body.as_deref(),
        Some(r#"{"callback":"https://sub.test/cb","topics":["orders","riders"],"uuid":null,"timeout":null,"max":10}"#)
    );
}

#[test]
fn unsubscribe_encodes_topic_as_one_segment() {
    let c = client("https://svc.test/v1/");
    let req = c.unsubscribe("orders/urgent").unwrap();
    assert_eq!(req.method, Method::Delete);
    assert_eq!(req.url.as_str(), "https://svc.test/v1/subscriber/topics/orders%2Furgent");
    assert!(req.body.is_none());
    assert_eq!(req.username, "936da01f-9abd-4d9d-80c7-02af85c822a8");
}

#[test]
fn unsubscribe_plain_and_non_ascii_topics() {
    let c = client("https://svc.test/");
    let req = c.unsubscribe("orders").unwrap();
    assert_eq!(req.url.as_str(), "https://svc.test/subscriber/topics/orders");
    let req = c.unsubscribe("caf\u{e9} a?b#c").unwrap();
    assert_eq!(req.url.as_str(), "https://svc.test/subscriber/topics/caf%C3%A9%20a%3Fb%23c");
}

#[test]
fn unsubscribe_all_deletes_subscriber() {
    let c = client("https://svc.test/v1/");
    let req = c.unsubscribe_all().unwrap();
    assert_eq!(req.method, Method::Delete);
    assert_eq!(req.url.as_str(), "https://svc.test/v1/subscriber");
    assert!(req.body.is_none());
}

#[test]
fn push_posts_event_json_to_topic() {
    let c = client("https://svc.test/v1/");
    let event = Event::new(
        EventType::Updated,
        Url::parse("https://x.test/a").unwrap(),
        "payload".to_string(),
        None,
    );
    let req = c.push("orders", event).unwrap();
    assert_eq!(req.method, Method::Post);
    assert_eq!(req.url.as_str(), "https://svc.test/v1/topics/orders");
    assert_eq!(
        req.body.as_deref(),
        Some(r#"{"type":"updated","url":"https://x.test/a","data":"payload","timestamp":null}"#)
    );
}

#[test]
fn join_with_and_without_trailing_slash() {
    let with_slash = Url::parse("https://svc.test/v1/").unwrap();
    assert_eq!(with_slash.join("topics").unwrap().as_str(), "https://svc.test/v1/topics");
    let without = Url::parse("https://svc.test/v1").unwrap();
    assert_eq!(without.join("topics").unwrap().as_str(), "https://svc.test/topics");
    let c = client("https://svc.test/v1");
    assert_eq!(c.unsubscribe_all().unwrap().url.as_str(), "https://svc.test/subscriber");
}

#[test]
fn join_failure_is_url_construction() {
    let c = client("mailto:ops@svc.test");
    assert!(matches!(c.unsubscribe_all(), Err(ClientError::UrlConstruction(_))));
    let base = Url::parse("https://svc.test/").unwrap();
    assert!(matches!(base.join("http://[::1"), Err(ClientError::UrlConstruction(_))));
}

#[test]
fn unsupported_operations_fail() {
    let c = client("https://svc.test/");
    assert!(matches!(c.topics(), Err(ClientError::NotImplemented)));
    assert!(matches!(c.create_token(), Err(ClientError::NotImplemented)));
    assert!(matches!(c.delete_token(), Err(ClientError::NotImplemented)));
}
