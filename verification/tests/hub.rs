use timecard::hub::{
    failed_deliveries, fan_out, webhook_body, webhook_call, webhook_succeeded, BroadcastHub,
    Delivery, WebhookOutcome, WEBHOOK_TIMEOUT_SECS,
};
use timecard::client_state::ClientInfo;
use timecard::clock::Timestamp;
use timecard::stream::SUBSCRIBER_STREAM_CAPACITY;

fn at(secs: i64) -> Timestamp {
    Timestamp { secs, nanos: 0 }
}

fn session(id: &str) -> ClientInfo {
    ClientInfo {
        socket_id: id.to_string(),
        ip_address: "unknown".to_string(),
        connected_at: at(1),
        last_activity: at(1),
    }
}

#[test]
fn relay_without_sessions_still_calls_the_webhook() {
    let hub = BroadcastHub::new(Some("https://hook.example/relay".to_string()));
    let plan = hub.relay_at("{\"status\":\"x\"}", &Vec::new(), "2024-01-01T00:00:00+00:00");
    assert!(plan.emissions.is_empty());
    assert_eq!(plan.subscribers, None);
    let call = plan.webhook.unwrap();
    assert_eq!(call.url, "https://hook.example/relay");
    assert_eq!(call.content_type, "application/json");
    assert_eq!(call.timeout_secs, 5);
    assert_eq!(WEBHOOK_TIMEOUT_SECS, 5);
    assert_eq!(
        call.body,
        "{\"data\":{\"status\":\"x\"},\"timestamp\":\"2024-01-01T00:00:00+00:00\",\"type\":\"hello\"}"
    );
}

#[test]
fn relay_without_webhook_and_sessions_is_empty() {
    let hub = BroadcastHub::new(None);
    let plan = hub.relay_at("{}", &Vec::new(), "2024-01-01T00:00:00+00:00");
    assert!(plan.emissions.is_empty());
    assert!(plan.webhook.is_none());
    assert_eq!(plan.subscribers, None);
}

#[test]
fn relay_reaches_every_session_in_order() {
    let sessions = vec![session("a"), session("b"), session("c")];
    let hub = BroadcastHub::new(None);
    let plan = hub.relay_at("{\"k\":1}", &sessions, "t");
    assert_eq!(plan.emissions.len(), 3);
    for (emission, id) in plan.emissions.iter().zip(["a", "b", "c"]) {
        assert_eq!(emission.socket_id, id);
        assert_eq!(emission.event, "hello");
        assert_eq!(emission.payload, "{\"k\":1}");
    }
    let emissions = fan_out("p", &sessions);
    assert_eq!(emissions.len(), 3);
    assert_eq!(emissions[2].socket_id, "c");
    assert_eq!(emissions[2].payload, "p");
}

#[test]
fn relay_now_stamps_the_webhook_body() {
    let hub = BroadcastHub::new(Some("http://h/".to_string()));
    let plan = hub.relay("{\"k\":1}", &vec![session("a")]);
    assert_eq!(plan.emissions.len(), 1);
    let call = plan.webhook.unwrap();
    let body: serde_json::Value = serde_json::from_str(&call.body).unwrap();
    assert_eq!(body["type"], "hello");
    assert_eq!(body["data"]["k"], 1);
    let stamp = body["timestamp"].as_str().unwrap();
    assert!(chrono::DateTime::parse_from_rfc3339(stamp).is_ok());
}

#[test]
fn webhook_body_holds_null_for_a_payload_that_is_no_json() {
    assert_eq!(
        webhook_body("not json", "T").unwrap(),
        "{\"data\":null,\"timestamp\":\"T\",\"type\":\"hello\"}"
    );
    assert_eq!(
        webhook_body("\"a string\"", "T").unwrap(),
        "{\"data\":\"a string\",\"timestamp\":\"T\",\"type\":\"hello\"}"
    );
    assert_eq!(
        webhook_body(" { \"b\" : 2, \"a\" : [1, 2] } ", "T\"x").unwrap(),
        "{\"data\":{\"a\":[1,2],\"b\":2},\"timestamp\":\"T\\\"x\",\"type\":\"hello\"}"
    );
}

#[test]
fn webhook_outcome_is_accepted_only_for_success_statuses() {
    assert!(webhook_succeeded(&WebhookOutcome::Status(200)));
    assert!(webhook_succeeded(&WebhookOutcome::Status(204)));
    assert!(webhook_succeeded(&WebhookOutcome::Status(299)));
    assert!(!webhook_succeeded(&WebhookOutcome::Status(199)));
    assert!(!webhook_succeeded(&WebhookOutcome::Status(300)));
    assert!(!webhook_succeeded(&WebhookOutcome::Status(404)));
    assert!(!webhook_succeeded(&WebhookOutcome::Status(500)));
    assert!(!webhook_succeeded(&WebhookOutcome::Failed("connection refused".to_string())));
}

#[test]
fn failed_deliveries_are_listed_in_order() {
    let deliveries = vec![
        Delivery { socket_id: "a".to_string(), failure: None },
        Delivery { socket_id: "b".to_string(), failure: Some("closed".to_string()) },
        Delivery { socket_id: "c".to_string(), failure: None },
        Delivery { socket_id: "d".to_string(), failure: Some("full".to_string()) },
    ];
    let failed = failed_deliveries(&deliveries);
    assert_eq!(failed.len(), 2);
    assert_eq!(failed[0].socket_id, "b");
    assert_eq!(failed[0].failure, Some("closed".to_string()));
    assert_eq!(failed[1].socket_id, "d");
    assert!(failed_deliveries(&Vec::new()).is_empty());
    assert!(failed_deliveries(&vec![Delivery { socket_id: "a".to_string(), failure: None }]).is_empty());
}


#[test]
fn relay_pushes_into_the_subscriber_stream() {
    let hub = BroadcastHub::new(None);
    let mut first = hub.subscribe();
    let plan = hub.relay_at("one", &Vec::new(), "t");
    assert_eq!(plan.subscribers, Some(1));
    let mut second = hub.subscribe();
    let plan = hub.relay_at("two", &vec![session("a")], "t");
    assert_eq!(plan.subscribers, Some(2));
    assert_eq!(first.try_recv().unwrap(), "one");
    assert_eq!(first.try_recv().unwrap(), "two");
    assert_eq!(second.try_recv().unwrap(), "two");
    assert!(second.try_recv().is_err());
    drop(first);
    drop(second);
    assert_eq!(hub.relay_at("three", &Vec::new(), "t").subscribers, None);
}

#[test]
fn relay_does_not_wait_for_a_consumer_that_lags() {
    assert_eq!(SUBSCRIBER_STREAM_CAPACITY, 1024);
    let hub = BroadcastHub::new(None);
    let mut consumer = hub.subscribe();
    for i in 0..(SUBSCRIBER_STREAM_CAPACITY + 10) {
        let plan = hub.relay_at(&format!("e{}", i), &Vec::new(), "t");
        assert_eq!(plan.subscribers, Some(1));
    }
    assert!(matches!(
        consumer.try_recv(),
        Err(tokio::sync::broadcast::error::TryRecvError::Lagged(10))
    ));
    assert_eq!(consumer.try_recv().unwrap(), "e10");
}

#[test]
fn webhook_call_is_made_only_for_a_body_that_was_composed() {
    let call = webhook_call("http://h/".to_string(), Ok("{}".to_string())).unwrap();
    assert_eq!(call.url, "http://h/");
    assert_eq!(call.body, "{}");
    assert_eq!(call.content_type, "application/json");
    assert_eq!(call.timeout_secs, 5);
    let error = serde_json::from_str::<serde_json::Value>("{").unwrap_err();
    assert!(webhook_call("http://h/".to_string(), Err(error)).is_none());
}
