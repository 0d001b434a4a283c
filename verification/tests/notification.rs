use timecard::notification::{
    lookup_failure, resolve, resolve_lookup, EventData, NotificationServiceImpl, TimeCardEvent,
};
use timecard::socketio_server::DriverLookup;

fn event(status: &str, data: Option<EventData>) -> TimeCardEvent {
    TimeCardEvent { status: status.to_string(), data }
}

fn data(id: i32, name: &str, picture: Option<&[u8]>) -> EventData {
    EventData {
        id,
        name: name.to_string(),
        pic_data: picture.map(|p| p.to_vec()),
        pic_data_base64: None,
    }
}

#[test]
fn lookup_is_wanted_for_a_reading_with_id_and_no_name() {
    assert_eq!(resolve_lookup(&event("tmp inserted wo pic", Some(data(42, "", None)))), Some(42));
    assert_eq!(resolve_lookup(&event("tmp inserted wo pic", Some(data(0, "", None)))), None);
    assert_eq!(resolve_lookup(&event("tmp inserted wo pic", Some(data(42, "Bob", None)))), None);
    assert_eq!(resolve_lookup(&event("tmp inserted", Some(data(42, "", None)))), None);
    assert_eq!(resolve_lookup(&event("tmp inserted wo pic", None)), None);
    assert_eq!(resolve_lookup(&event("tmp inserted wo pic", Some(data(-3, "", None)))), Some(-3));
}

#[test]
fn resolving_fills_the_name_and_encodes_the_picture() {
    let inbound = event("tmp inserted wo pic", Some(data(42, "", Some(b"hello"))));
    let resolved = resolve(inbound, Some(DriverLookup::Found("Alice".to_string()))).unwrap();
    assert_eq!(resolved.status, "tmp inserted wo pic");
    let payload = resolved.data.unwrap();
    assert_eq!(payload.id, 42);
    assert_eq!(payload.name, "Alice");
    assert_eq!(payload.pic_data, Some(b"hello".to_vec()));
    assert_eq!(payload.pic_data_base64, Some("aGVsbG8=".to_string()));
}

#[test]
fn resolving_uses_the_standard_alphabet() {
    let inbound = event("tmp inserted wo pic", Some(data(0, "", Some(&[0xfb, 0xff, 0xfe]))));
    let resolved = resolve(inbound, None).unwrap();
    assert_eq!(resolved.data.unwrap().pic_data_base64, Some("+//+".to_string()));
}

#[test]
fn resolving_leaves_an_absent_driver_unnamed() {
    let inbound = event("tmp inserted wo pic", Some(data(42, "", None)));
    let resolved = resolve(inbound, Some(DriverLookup::Missing)).unwrap();
    let payload = resolved.data.unwrap();
    assert_eq!(payload.name, "");
    assert_eq!(payload.pic_data_base64, None);
}

#[test]
fn resolving_keeps_an_empty_picture_unencoded() {
    let mut payload = data(42, "Bob", Some(b""));
    payload.pic_data_base64 = Some("kept".to_string());
    let resolved = resolve(event("tmp inserted wo pic", Some(payload)), Some(DriverLookup::Found("Alice".to_string()))).unwrap();
    let payload = resolved.data.unwrap();
    assert_eq!(payload.name, "Bob");
    assert_eq!(payload.pic_data_base64, Some("kept".to_string()));
}

#[test]
fn failed_lookup_does_not_fail_the_event() {
    let inbound = event("tmp inserted wo pic", Some(data(42, "", Some(b"hello"))));
    let lookup = Some(DriverLookup::Failed("connection reset".to_string()));
    assert_eq!(
        lookup_failure(&inbound, &lookup),
        Some("Database error: connection reset".to_string())
    );
    let resolved = resolve(inbound, lookup).unwrap();
    assert_eq!(resolved.status, "tmp inserted wo pic");
    let payload = resolved.data.unwrap();
    assert_eq!(payload.id, 42);
    assert_eq!(payload.name, "");
    assert_eq!(payload.pic_data, Some(b"hello".to_vec()));
    assert_eq!(payload.pic_data_base64, Some("aGVsbG8=".to_string()));
}

#[test]
fn only_a_wanted_lookup_that_failed_is_logged() {
    let wanted = event("tmp inserted wo pic", Some(data(42, "", None)));
    assert_eq!(lookup_failure(&wanted, &Some(DriverLookup::Missing)), None);
    assert_eq!(lookup_failure(&wanted, &Some(DriverLookup::Found("A".to_string()))), None);
    assert_eq!(lookup_failure(&wanted, &None), None);
    let named = event("tmp inserted wo pic", Some(data(42, "Bob", None)));
    assert_eq!(lookup_failure(&named, &Some(DriverLookup::Failed("x".to_string()))), None);
}

#[test]
fn failed_lookup_that_was_not_wanted_is_ignored() {
    let inbound = event("tmp inserted wo pic", Some(data(42, "Bob", None)));
    let resolved = resolve(inbound, Some(DriverLookup::Failed("connection reset".to_string()))).unwrap();
    assert_eq!(resolved.data.unwrap().name, "Bob");
}

#[test]
fn other_events_are_resolved_as_they_came() {
    let inbound = event("tmp inserted", Some(data(42, "", Some(b"hello"))));
    let resolved = resolve(inbound, Some(DriverLookup::Found("Alice".to_string()))).unwrap();
    assert_eq!(resolved.status, "tmp inserted");
    let payload = resolved.data.unwrap();
    assert_eq!(payload.name, "");
    assert_eq!(payload.pic_data_base64, None);
    assert_eq!(payload.pic_data, Some(b"hello".to_vec()));
    let resolved = resolve(event("tmp inserted wo pic", None), None).unwrap();
    assert!(resolved.data.is_none());
}

#[test]
fn broadcast_without_subscriber_drops_the_event() {
    let (sender, receiver) = tokio::sync::broadcast::channel::<TimeCardEvent>(4);
    drop(receiver);
    let service = NotificationServiceImpl::new(sender);
    assert_eq!(service.broadcast_event(event("tmp inserted", None)), None);
    assert_eq!(service.broadcast_event(event("tmp inserted", None)), None);
}

#[test]
fn broadcast_reaches_the_subscribers() {
    let (sender, mut first) = tokio::sync::broadcast::channel::<TimeCardEvent>(4);
    let mut second = sender.subscribe();
    let service = NotificationServiceImpl::new(sender);
    assert_eq!(service.broadcast_event(event("insert ic_log", Some(data(7, "x", None)))), Some(2));
    let received = first.try_recv().unwrap();
    assert_eq!(received.status, "insert ic_log");
    assert_eq!(received.data.unwrap().id, 7);
    assert_eq!(second.try_recv().unwrap().status, "insert ic_log");
    assert!(first.try_recv().is_err());
}

#[test]
fn lagging_subscriber_loses_the_oldest_events_and_the_publisher_goes_on() {
    let (sender, mut receiver) = tokio::sync::broadcast::channel::<TimeCardEvent>(2);
    let service = NotificationServiceImpl::new(sender);
    for i in 0..5 {
        assert_eq!(service.broadcast_event(event(&format!("e{}", i), None)), Some(1));
    }
    assert!(matches!(
        receiver.try_recv(),
        Err(tokio::sync::broadcast::error::TryRecvError::Lagged(3))
    ));
    assert_eq!(receiver.try_recv().unwrap().status, "e3");
    assert_eq!(receiver.try_recv().unwrap().status, "e4");
}

#[test]
fn resolve_and_broadcast_pushes_the_resolved_event() {
    let (sender, mut receiver) = tokio::sync::broadcast::channel::<TimeCardEvent>(4);
    let service = NotificationServiceImpl::new(sender);
    let inbound = event("tmp inserted wo pic", Some(data(42, "", Some(b"hello"))));
    let returned = service
        .resolve_and_broadcast(inbound, Some(DriverLookup::Found("Alice".to_string())))
        .unwrap();
    assert_eq!(returned.data.as_ref().unwrap().name, "Alice");
    let pushed = receiver.try_recv().unwrap();
    let payload = pushed.data.unwrap();
    assert_eq!(payload.name, "Alice");
    assert_eq!(payload.pic_data_base64, Some("aGVsbG8=".to_string()));
    assert_eq!(payload.pic_data, Some(b"hello".to_vec()));
}

#[test]
fn resolve_and_broadcast_pushes_the_event_when_the_lookup_failed() {
    let (sender, mut receiver) = tokio::sync::broadcast::channel::<TimeCardEvent>(4);
    let service = NotificationServiceImpl::new(sender);
    let inbound = event("tmp inserted wo pic", Some(data(42, "", None)));
    let returned = service
        .resolve_and_broadcast(inbound, Some(DriverLookup::Failed("x".to_string())))
        .unwrap();
    assert_eq!(returned.data.as_ref().unwrap().name, "");
    assert_eq!(returned.data.as_ref().unwrap().id, 42);
    let pushed = receiver.try_recv().unwrap();
    assert_eq!(pushed.status, "tmp inserted wo pic");
    assert_eq!(pushed.data.unwrap().name, "");
    assert!(receiver.try_recv().is_err());
}

#[test]
fn copy_of_an_event_holds_its_payload() {
    let mut payload = data(7, "Zoe", Some(b"abc"));
    payload.pic_data_base64 = Some("YWJj".to_string());
    let original = event("tmp inserted", Some(payload));
    let copy = original.clone();
    assert_eq!(copy.status, "tmp inserted");
    let copied = copy.data.unwrap();
    assert_eq!(copied.id, 7);
    assert_eq!(copied.name, "Zoe");
    assert_eq!(copied.pic_data, Some(b"abc".to_vec()));
    assert_eq!(copied.pic_data_base64, Some("YWJj".to_string()));
    assert!(event("x", None).clone().data.is_none());
}
