use timecard::client_state::{ClientInfo, ClientState};
use timecard::clock::Timestamp;

fn at(secs: i64) -> Timestamp {
    Timestamp { secs, nanos: 0 }
}

fn ids(listing: &[ClientInfo]) -> Vec<String> {
    let mut ids: Vec<String> = listing.iter().map(|c| c.socket_id.clone()).collect();
    ids.sort();
    ids
}

fn find<'a>(listing: &'a [ClientInfo], id: &str) -> &'a ClientInfo {
    listing.iter().find(|c| c.socket_id == id).expect("session is listed")
}

#[test]
fn new_registry_is_empty() {
    let state = ClientState::new();
    assert_eq!(state.get_client_count(), 0);
    assert!(state.get_all_clients().is_empty());
}

#[test]
fn default_registry_is_empty() {
    let state = ClientState::default();
    assert_eq!(state.get_client_count(), 0);
}

#[test]
fn add_then_list_contains_session() {
    let mut state = ClientState::new();
    state.add_client_at("a".to_string(), "unknown".to_string(), at(10));
    let listing = state.get_all_clients();
    assert_eq!(listing.len(), 1);
    assert_eq!(listing[0].socket_id, "a");
    assert_eq!(listing[0].ip_address, "unknown");
    assert_eq!(listing[0].connected_at, at(10));
    assert_eq!(listing[0].last_activity, at(10));
    assert_eq!(state.get_client_count(), 1);
}

#[test]
fn add_twice_overwrites_the_record() {
    let mut state = ClientState::new();
    state.add_client_at("a".to_string(), "10.0.0.1".to_string(), at(10));
    state.add_client_at("a".to_string(), "10.0.0.2".to_string(), at(20));
    let listing = state.get_all_clients();
    assert_eq!(listing.len(), 1);
    assert_eq!(listing[0].ip_address, "10.0.0.2");
    assert_eq!(listing[0].connected_at, at(20));
    assert_eq!(listing[0].last_activity, at(20));
}

#[test]
fn remove_returns_the_record_and_forgets_it() {
    let mut state = ClientState::new();
    state.add_client_at("a".to_string(), "10.0.0.1".to_string(), at(10));
    state.add_client_at("b".to_string(), "10.0.0.2".to_string(), at(11));
    let removed = state.remove_client("a").expect("a was registered");
    assert_eq!(removed.socket_id, "a");
    assert_eq!(removed.ip_address, "10.0.0.1");
    assert_eq!(removed.connected_at, at(10));
    assert_eq!(ids(&state.get_all_clients()), vec!["b".to_string()]);
    assert_eq!(state.get_client_count(), 1);
}

#[test]
fn remove_of_an_absent_session_returns_none() {
    let mut state = ClientState::new();
    state.add_client_at("a".to_string(), "10.0.0.1".to_string(), at(10));
    assert!(state.remove_client("zzz").is_none());
    assert_eq!(state.get_client_count(), 1);
}

#[test]
fn touch_updates_activity_only() {
    let mut state = ClientState::new();
    state.add_client_at("a".to_string(), "10.0.0.1".to_string(), at(10));
    state.update_activity_at("a", Timestamp { secs: 50, nanos: 7 });
    let listing = state.get_all_clients();
    let a = find(&listing, "a");
    assert_eq!(a.connected_at, at(10));
    assert_eq!(a.last_activity, Timestamp { secs: 50, nanos: 7 });
    assert_eq!(a.ip_address, "10.0.0.1");
}

#[test]
fn touch_of_an_absent_session_does_nothing() {
    let mut state = ClientState::new();
    state.update_activity_at("ghost", at(5));
    assert_eq!(state.get_client_count(), 0);
    assert!(state.get_all_clients().is_empty());
}

#[test]
fn update_ip_sets_address_and_activity() {
    let mut state = ClientState::new();
    state.add_client_at("a".to_string(), "unknown".to_string(), at(10));
    state.update_ip_at("a", "192.168.1.5".to_string(), at(30));
    let listing = state.get_all_clients();
    let a = find(&listing, "a");
    assert_eq!(a.ip_address, "192.168.1.5");
    assert_eq!(a.connected_at, at(10));
    assert_eq!(a.last_activity, at(30));
}

#[test]
fn update_ip_of_an_absent_session_does_nothing() {
    let mut state = ClientState::new();
    state.update_ip_at("ghost", "192.168.1.5".to_string(), at(30));
    assert_eq!(state.get_client_count(), 0);
}

#[test]
fn listing_holds_exactly_the_connected_sessions() {
    let mut state = ClientState::new();
    state.add_client_at("a".to_string(), "unknown".to_string(), at(1));
    state.add_client_at("b".to_string(), "unknown".to_string(), at(2));
    state.update_activity_at("a", at(3));
    state.add_client_at("c".to_string(), "unknown".to_string(), at(4));
    assert!(state.remove_client("b").is_some());
    state.update_ip_at("c", "10.1.1.1".to_string(), at(5));
    state.update_ip_at("b", "10.1.1.2".to_string(), at(6));
    state.add_client_at("d".to_string(), "unknown".to_string(), at(7));
    assert!(state.remove_client("a").is_some());
    state.add_client_at("a".to_string(), "unknown".to_string(), at(8));
    let listing = state.get_all_clients();
    assert_eq!(ids(&listing), vec!["a".to_string(), "c".to_string(), "d".to_string()]);
    assert_eq!(state.get_client_count(), listing.len());
    assert_eq!(find(&listing, "a").connected_at, at(8));
    assert_eq!(find(&listing, "c").ip_address, "10.1.1.1");
}

#[test]
fn count_equals_listing_length_with_many_sessions() {
    let mut state = ClientState::new();
    for i in 0..200 {
        state.add_client_at(format!("s{}", i), "unknown".to_string(), at(i));
    }
    for i in 0..200 {
        if i % 3 == 0 {
            assert!(state.remove_client(&format!("s{}", i)).is_some());
        }
    }
    let listing = state.get_all_clients();
    assert_eq!(listing.len(), 133);
    assert_eq!(state.get_client_count(), 133);
    let mut seen = ids(&listing);
    seen.dedup();
    assert_eq!(seen.len(), 133);
}

#[test]
fn clock_stamped_operations_use_one_reading_each() {
    let mut state = ClientState::new();
    state.add_client("a".to_string(), "unknown".to_string());
    let listing = state.get_all_clients();
    assert_eq!(listing.len(), 1);
    assert_eq!(listing[0].connected_at, listing[0].last_activity);
    assert!(listing[0].connected_at.secs > 1_600_000_000);
    assert!(listing[0].connected_at.nanos < 2_000_000_000);
    state.update_activity("a");
    state.update_ip("a", "10.0.0.9".to_string());
    let listing = state.get_all_clients();
    assert_eq!(listing[0].ip_address, "10.0.0.9");
    assert_eq!(listing[0].socket_id, "a");
}

#[test]
fn snapshot_is_a_copy() {
    let mut state = ClientState::new();
    state.add_client_at("a".to_string(), "unknown".to_string(), at(1));
    let snapshot = state.get_all_clients();
    assert!(state.remove_client("a").is_some());
    assert_eq!(snapshot.len(), 1);
    assert_eq!(snapshot[0].socket_id, "a");
    let copy = snapshot[0].clone();
    assert_eq!(copy.socket_id, "a");
    assert_eq!(copy.connected_at, at(1));
}
