use pingr::data_model::{DeviceState, StateChange};
use pingr::projection::{
    devices_for_connection, devices_with_status, split_connection_key, Projections,
};

fn change(id: &str, state: DeviceState, connection: Option<&str>, timestamp: u64) -> StateChange {
    StateChange {
        id: id.to_string(),
        state,
        connection: connection.map(str::to_string),
        timestamp,
    }
}

#[test]
fn status_view_follows_latest_event() {
    let mut p = Projections::new();
    p.apply_state_change(&change("dev1", DeviceState::Reporting, None, 0));
    assert_eq!(p.device_status("dev1").unwrap().state, DeviceState::Reporting);
    p.apply_state_change(&change("dev1", DeviceState::Offline, None, 100));
    assert_eq!(p.device_status("dev1").unwrap().state, DeviceState::Offline);
    assert_eq!(p.device_status("dev1").unwrap().timestamp, 100);
    assert!(p.device_status("dev2").is_none());
}

#[test]
fn connection_view_keyed_by_connection_and_device() {
    let mut p = Projections::new();
    p.apply_state_change(&change("dev1", DeviceState::Reporting, Some("wifi-A"), 0));
    let entry = p.connection_device_status("wifi-A", "dev1").unwrap();
    assert_eq!(entry.state, DeviceState::Reporting);
    assert!(p.connection_device_status("wifi-B", "dev1").is_none());
    // An event without a connection leaves the connection view alone.
    p.apply_state_change(&change("dev1", DeviceState::Offline, None, 50));
    let entry = p.connection_device_status("wifi-A", "dev1").unwrap();
    assert_eq!(entry.state, DeviceState::Reporting);
}

#[test]
fn details_created_once_per_device() {
    let mut p = Projections::new();
    assert!(p.device_details("dev1").is_none());
    p.apply_state_change(&change("dev1", DeviceState::Reporting, None, 0));
    let details = p.device_details("dev1").unwrap();
    assert_eq!(details.friendly_name, None);
    // Later events do not reset the entry.
    p.apply_state_change(&change("dev1", DeviceState::Stopped, None, 10));
    assert!(p.device_details("dev1").is_some());
}

#[test]
fn batch_folds_events_in_delivery_order() {
    let mut p = Projections::new();
    p.apply_batch(&vec![
        change("dev1", DeviceState::Reporting, Some("wifi-A"), 0),
        change("dev2", DeviceState::Stopped, None, 1),
        change("dev1", DeviceState::Offline, Some("wifi-A"), 2),
    ]);
    assert_eq!(p.device_status("dev1").unwrap().state, DeviceState::Offline);
    assert_eq!(p.device_status("dev2").unwrap().state, DeviceState::Stopped);
    assert_eq!(
        p.connection_device_status("wifi-A", "dev1").unwrap().state,
        DeviceState::Offline
    );
    assert!(p.device_details("dev1").is_some());
    assert!(p.device_details("dev2").is_some());
}

#[test]
fn connection_key_splits_at_first_separator() {
    assert_eq!(
        split_connection_key("ssid=HomeNet::dev1"),
        Some(("ssid=HomeNet".to_string(), "dev1".to_string()))
    );
    // The first separator wins; the rest stays in the device part.
    assert_eq!(
        split_connection_key("a::b::c"),
        Some(("a".to_string(), "b::c".to_string()))
    );
    assert_eq!(split_connection_key("no separator"), None);
    assert_eq!(split_connection_key(":"), None);
    assert_eq!(split_connection_key("::"), Some((String::new(), String::new())));
}

#[test]
fn connection_page_groups_devices_by_connection() {
    let keys = vec![
        "wifi-A::dev1".to_string(),
        "wifi-B::dev2".to_string(),
        "wifi-A::dev3".to_string(),
        "malformed".to_string(),
    ];
    assert_eq!(devices_for_connection(&keys, "wifi-A"), vec!["dev1", "dev3"]);
    assert_eq!(devices_for_connection(&keys, "wifi-B"), vec!["dev2"]);
    assert_eq!(devices_for_connection(&keys, "wifi-C"), Vec::<String>::new());
}

#[test]
fn status_page_groups_devices_by_status() {
    let list = vec![
        ("dev1".to_string(), "Reporting".to_string()),
        ("dev2".to_string(), "Stopped".to_string()),
        ("dev3".to_string(), "Reporting".to_string()),
    ];
    assert_eq!(devices_with_status(&list, "Reporting"), vec!["dev1", "dev3"]);
    assert_eq!(devices_with_status(&list, "Stopped"), vec!["dev2"]);
    assert_eq!(devices_with_status(&list, "Offline"), Vec::<String>::new());
}

#[test]
fn redelivered_event_is_a_no_op() {
    // At-least-once delivery: folding the same event twice gives the same
    // views.
    let mut p = Projections::new();
    let ev = change("dev1", DeviceState::Reporting, Some("wifi-A"), 42);
    p.apply_state_change(&ev);
    p.apply_state_change(&ev);
    assert_eq!(p.device_status("dev1").unwrap(), &ev);
    assert_eq!(p.connection_device_status("wifi-A", "dev1").unwrap(), &ev);
}
