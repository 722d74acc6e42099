use pingr::data_model::DeviceState;
use pingr::device::{query_device_id, Device};

fn q(pairs: &[(&str, &str)]) -> Vec<(String, String)> {
    pairs.iter().map(|(k, v)| (k.to_string(), v.to_string())).collect()
}

#[test]
fn scenario_single_report_then_deadline() {
    // Device D1 sends OngoingReport(period=60) at t=0.
    let mut d = Device::new("D1".to_string());
    d.fetch("/report/ongoing", &q(&[("device_id", "D1"), ("period", "60")]), 0);
    assert_eq!(d.device_state(), DeviceState::Reporting);
    assert_eq!(d.emitted().len(), 1);
    assert_eq!(d.emitted()[0].id, "D1");
    assert_eq!(d.emitted()[0].state, DeviceState::Reporting);
    assert_eq!(d.emitted()[0].timestamp, 0);
    // Deadline armed for t = 65 s (period plus the 5 s margin).
    assert_eq!(d.alarm_deadline(), Some(65_000));
    // No further input; the deadline fires at t = 65 s.
    let ack = d.alarm(65_000);
    assert_eq!(d.device_state(), DeviceState::Offline);
    assert_eq!(d.emitted().len(), 2);
    assert_eq!(d.emitted()[1].id, "D1");
    assert_eq!(d.emitted()[1].state, DeviceState::Offline);
    assert_eq!(ack, "TimeStamp: 65000 Device ID: D1 State: Offline");
}

#[test]
fn scenario_reconfirmation_slides_deadline() {
    // Device D2 reports with period=30 over wifi-A at t=0, again at t=20 s.
    let mut d = Device::new("D2".to_string());
    let query = q(&[("connection", "wifi-A"), ("period", "30")]);
    d.fetch("/report/ongoing", &query, 0);
    assert_eq!(d.device_state(), DeviceState::Reporting);
    assert_eq!(d.connection().as_deref(), Some("wifi-A"));
    assert_eq!(d.emitted().len(), 1);
    assert_eq!(d.emitted()[0].connection.as_deref(), Some("wifi-A"));
    assert_eq!(d.alarm_deadline(), Some(35_000));
    d.fetch("/report/ongoing", &query, 20_000);
    // Still Reporting, no second event, deadline rearmed to t = 55 s, not 35 s.
    assert_eq!(d.device_state(), DeviceState::Reporting);
    assert_eq!(d.emitted().len(), 1);
    assert_eq!(d.alarm_deadline(), Some(55_000));
}

#[test]
fn scenario_stop_as_first_event() {
    // Device D3 sends StopReport as its very first-ever event.
    let mut d = Device::new("D3".to_string());
    d.fetch("/report/stop", &q(&[("device_id", "D3")]), 5);
    assert_eq!(d.device_state(), DeviceState::Stopped);
    // One event was emitted even though the device was never seen before.
    assert_eq!(d.emitted().len(), 1);
    assert_eq!(d.emitted()[0].state, DeviceState::Stopped);
    assert_eq!(d.emitted()[0].timestamp, 5);
    // No timer armed.
    assert_eq!(d.alarm_deadline(), None);
    // The record was persisted and holds a real state.
    let stored = d.stored_record().as_ref().expect("record persisted");
    assert_eq!(stored.device_state, DeviceState::Stopped);
}

#[test]
fn first_event_always_persists_and_emits() {
    let mut d = Device::new("fresh".to_string());
    assert!(d.stored_record().is_none());
    d.process_report("ongoing", Some(60), 1_000);
    let stored = d.stored_record().as_ref().expect("record persisted");
    assert_ne!(stored.device_state, DeviceState::New);
    assert_eq!(d.emitted().len(), 1);
}

#[test]
fn repeated_stop_changes_nothing() {
    let mut d = Device::new("D4".to_string());
    d.process_report("stop", None, 10);
    let stored_after_first = d.stored_record().clone();
    assert_eq!(d.emitted().len(), 1);
    for t in [20, 30, 40] {
        d.process_report("stop", None, t);
        assert_eq!(d.emitted().len(), 1);
        assert_eq!(d.stored_record(), &stored_after_first);
        assert_eq!(d.device_state(), DeviceState::Stopped);
    }
}

#[test]
fn recovery_from_offline_emits_and_rearms() {
    let mut d = Device::new("D5".to_string());
    d.process_report("ongoing", Some(10), 0);
    d.alarm(15_000);
    assert_eq!(d.device_state(), DeviceState::Offline);
    assert_eq!(d.emitted().len(), 2);
    // The device comes back.
    d.process_report("ongoing", Some(10), 60_000);
    assert_eq!(d.device_state(), DeviceState::Reporting);
    assert_eq!(d.emitted().len(), 3);
    assert_eq!(d.emitted()[2].state, DeviceState::Reporting);
    assert_eq!(d.alarm_deadline(), Some(75_000));
}

#[test]
fn record_survives_restart() {
    let mut d = Device::new("D6".to_string());
    d.fetch("/report/ongoing", &q(&[("connection", "eth0"), ("period", "60")]), 0);
    assert_eq!(d.emitted().len(), 1);
    // The actor is evicted and re-activated: in-memory state is lost.
    d.restart();
    assert_eq!(d.device_state(), DeviceState::New);
    assert_eq!(d.connection(), &None);
    // The next report reloads the record first: a reconfirmation, no event.
    d.fetch("/report/ongoing", &q(&[("connection", "eth0"), ("period", "60")]), 30_000);
    assert_eq!(d.device_state(), DeviceState::Reporting);
    assert_eq!(d.emitted().len(), 1);
    assert_eq!(d.connection().as_deref(), Some("eth0"));
}

#[test]
fn overdue_report_in_stopped_state_is_anomaly() {
    let mut d = Device::new("D7".to_string());
    d.process_report("stop", None, 0);
    assert_eq!(d.emitted().len(), 1);
    // A stale deadline report reaches the actor: no transition, no event.
    d.process_report("alarm", None, 1_000);
    assert_eq!(d.device_state(), DeviceState::Stopped);
    assert_eq!(d.emitted().len(), 1);
}

#[test]
fn overdue_report_for_new_device_is_anomaly() {
    let mut d = Device::new("D8".to_string());
    d.process_report("alarm", None, 0);
    assert_eq!(d.device_state(), DeviceState::New);
    assert_eq!(d.emitted().len(), 0);
    assert!(d.stored_record().is_none());
}

#[test]
fn reconfirmation_without_period_keeps_deadline() {
    let mut d = Device::new("D9".to_string());
    d.process_report("ongoing", Some(60), 0);
    assert_eq!(d.alarm_deadline(), Some(65_000));
    // An ongoing report without a declared period does not touch the alarm.
    d.process_report("ongoing", None, 10_000);
    assert_eq!(d.alarm_deadline(), Some(65_000));
    assert_eq!(d.emitted().len(), 1);
}

#[test]
fn stop_cancels_armed_deadline() {
    let mut d = Device::new("D10".to_string());
    d.process_report("ongoing", Some(60), 0);
    assert_eq!(d.alarm_deadline(), Some(65_000));
    d.process_report("stop", None, 1_000);
    assert_eq!(d.alarm_deadline(), None);
    assert_eq!(d.device_state(), DeviceState::Stopped);
    assert_eq!(d.emitted().len(), 2);
}

#[test]
fn ack_reflects_post_transition_status() {
    let mut d = Device::new("D11".to_string());
    let ack = d.process_report("ongoing", Some(60), 123);
    assert_eq!(ack, "TimeStamp: 123 Device ID: D11 State: Reporting");
    let ack = d.process_report("stop", None, 456);
    assert_eq!(ack, "TimeStamp: 456 Device ID: D11 State: Stopped");
}

#[test]
fn last_query_pair_wins() {
    let mut d = Device::new("D12".to_string());
    let query = q(&[
        ("connection", "first"),
        ("period", "10"),
        ("connection", "second"),
        ("period", "20"),
        ("other", "ignored"),
    ]);
    d.fetch("/report/ongoing", &query, 0);
    assert_eq!(d.connection().as_deref(), Some("second"));
    assert_eq!(d.alarm_deadline(), Some(25_000));
}

#[test]
fn unparsable_period_arms_no_deadline() {
    let mut d = Device::new("D13".to_string());
    d.fetch("/report/ongoing", &q(&[("period", "soon")]), 0);
    assert_eq!(d.device_state(), DeviceState::Reporting);
    assert_eq!(d.alarm_deadline(), None);
}

#[test]
fn dispatch_reads_device_id_from_query() {
    assert_eq!(
        query_device_id(&q(&[("device_id", "abc"), ("period", "60")])).as_deref(),
        Some("abc")
    );
    assert_eq!(
        query_device_id(&q(&[("device_id", "abc"), ("device_id", "def")])).as_deref(),
        Some("def")
    );
    assert_eq!(query_device_id(&q(&[("period", "60")])), None);
    assert_eq!(query_device_id(&q(&[])), None);
}
