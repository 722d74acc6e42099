use pingr::data_model::{
    Connection, DeviceDetails, DeviceState, MonitorReport, ReportType, StateChange,
};

#[test]
fn display_forms_match_wire_format() {
    assert_eq!(DeviceState::New.to_display_string(), "New");
    assert_eq!(DeviceState::Stopped.to_display_string(), "Stopped");
    assert_eq!(DeviceState::Reporting.to_display_string(), "Reporting");
    assert_eq!(DeviceState::Offline.to_display_string(), "Offline");
    assert_eq!(ReportType::Stop.to_display_string(), "Stop");
    assert_eq!(ReportType::OnGoing.to_display_string(), "OnGoing");
    assert_eq!(ReportType::Stop.path_name(), "stop");
    assert_eq!(ReportType::OnGoing.path_name(), "ongoing");
    assert_eq!(
        Connection::SSID("HomeNet".to_string()).to_display_string(),
        "\tssid=HomeNet"
    );
    assert_eq!(
        Connection::Ethernet("aa:bb".to_string()).to_display_string(),
        "\tethernet=aa:bb"
    );
}

#[test]
fn monitor_report_defaults_to_ethernet() {
    let report = MonitorReport::default();
    assert_eq!(report.connection_used, Connection::Ethernet("default".to_string()));
    assert!(report.connections.is_empty());
    assert_eq!(report.to_display_string(), "\tConnection Used = \tethernet=default");
}

#[test]
fn device_details_default_has_no_name() {
    assert_eq!(DeviceDetails::default().friendly_name, None);
}

#[test]
fn state_change_carries_event_fields() {
    let ev = StateChange {
        id: "dev".to_string(),
        state: DeviceState::Reporting,
        connection: Some("wifi".to_string()),
        timestamp: 7,
    };
    let copy = ev.clone();
    assert_eq!(copy, ev);
}
