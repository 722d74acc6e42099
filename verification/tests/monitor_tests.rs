use pingr::config::{resolve_config, MonitorSpec, ReportSpec};
use pingr::data_model::{Connection, MonitorReport, ReportType};
use pingr::monitor::{add_report, build_report, parse_ssid, report_query, report_url_for};

#[test]
fn ssid_read_from_iw_output() {
    let data = "phy#0\n\tInterface wlan0\n\t\ttype managed\n\t\tssid HomeNet\n";
    assert_eq!(parse_ssid(data).as_deref(), Some("HomeNet"));
}

#[test]
fn ssid_first_matching_line_wins() {
    let data = "ssid First\nssid Second\n";
    assert_eq!(parse_ssid(data).as_deref(), Some("First"));
}

#[test]
fn ssid_missing_gives_none() {
    assert_eq!(parse_ssid(""), None);
    assert_eq!(parse_ssid("Interface wlan0\ntype managed\n"), None);
    // A bare `ssid` line names nothing.
    assert_eq!(parse_ssid("ssid\n"), None);
}

#[test]
fn report_under_connection_spec_keeps_only_matching_networks() {
    let scanned = vec![
        ("HomeNet".to_string(), "-70".to_string()),
        ("Neighbour".to_string(), "-80".to_string()),
        ("HomeNet".to_string(), "-71".to_string()),
    ];
    let report = build_report("HomeNet".to_string(), &scanned, MonitorSpec::Connection);
    assert_eq!(report.connection_used, Connection::SSID("HomeNet".to_string()));
    assert_eq!(report.connections.len(), 2);
    assert_eq!(report.connections[0].stats.as_ref().unwrap().power_dbs, -70);
    assert_eq!(report.connections[1].stats.as_ref().unwrap().power_dbs, -71);
}

#[test]
fn report_under_all_spec_keeps_every_network() {
    let scanned = vec![
        ("HomeNet".to_string(), "-70".to_string()),
        ("Neighbour".to_string(), "-80".to_string()),
    ];
    let report = build_report("HomeNet".to_string(), &scanned, MonitorSpec::All);
    assert_eq!(report.connections.len(), 2);
    assert_eq!(
        report.connections[1].connection,
        Connection::SSID("Neighbour".to_string())
    );
}

#[test]
fn unparsable_signal_level_reads_as_zero() {
    let mut report = MonitorReport {
        connection_used: Connection::SSID("HomeNet".to_string()),
        connections: vec![],
    };
    add_report(&mut report, "HomeNet".to_string(), "-70.00");
    assert_eq!(report.connections[0].stats.as_ref().unwrap().power_dbs, 0);
}

#[test]
fn report_query_layout() {
    assert_eq!(
        report_query(ReportType::OnGoing, "abc", "ssid=HomeNet", 60),
        "report/ongoing?device_id=abc&connection=ssid=HomeNet&period=60"
    );
    assert_eq!(
        report_query(ReportType::Stop, "abc", "ssid=HomeNet", 60),
        "report/stop?device_id=abc&connection=ssid=HomeNet&period=60"
    );
}

#[test]
fn report_url_resolved_against_base() {
    let config = resolve_config(
        Some(MonitorSpec::Connection),
        Some(ReportSpec {
            period_seconds: Some(60),
            base_url: Some("https://collectr.example.net".to_string()),
        }),
    );
    let report = MonitorReport {
        connection_used: Connection::SSID("HomeNet".to_string()),
        connections: vec![],
    };
    let url = report_url_for(&config, "abc", ReportType::OnGoing, &report).unwrap();
    // The URL parser resolves the relative reference against the base and
    // strips the tab that the connection's display form starts with.
    assert_eq!(
        url,
        "https://collectr.example.net/report/ongoing?device_id=abc&connection=ssid=HomeNet&period=60"
    );
}

#[test]
fn report_url_absent_when_base_cannot_carry_a_path() {
    // The base parses as an absolute URL but cannot be a base, so resolving
    // the relative report URL against it fails.
    let config = resolve_config(
        None,
        Some(ReportSpec {
            period_seconds: Some(60),
            base_url: Some("mailto:collector@example.net".to_string()),
        }),
    );
    assert!(config.report_url.is_some());
    let report = MonitorReport {
        connection_used: Connection::SSID("HomeNet".to_string()),
        connections: vec![],
    };
    assert_eq!(report_url_for(&config, "abc", ReportType::OnGoing, &report), None);
}

#[test]
fn report_url_absent_without_base() {
    let config = resolve_config(None, Some(ReportSpec { period_seconds: Some(1), base_url: None }));
    let report = MonitorReport {
        connection_used: Connection::SSID("HomeNet".to_string()),
        connections: vec![],
    };
    assert_eq!(report_url_for(&config, "abc", ReportType::OnGoing, &report), None);
}
