use pingr::config::{resolve_config, Config, MonitorSpec, ReportSpec, SsidSpec};

#[test]
fn period_defaults_to_sixty_seconds() {
    let c = resolve_config(None, None);
    assert_eq!(c.period_duration, 60);
    assert_eq!(c.monitor, None);
    assert_eq!(c.report, None);
    assert_eq!(c.report_url, None);

    let c = resolve_config(
        Some(MonitorSpec::Connection),
        Some(ReportSpec { period_seconds: None, base_url: None }),
    );
    assert_eq!(c.period_duration, 60);
}

#[test]
fn declared_period_wins() {
    let c = resolve_config(None, Some(ReportSpec { period_seconds: Some(1), base_url: None }));
    assert_eq!(c.period_duration, 1);
}

#[test]
fn base_url_validated_and_normalized() {
    // The parser normalizes an absolute URL: here it adds the root path.
    let c = resolve_config(
        None,
        Some(ReportSpec {
            period_seconds: Some(60),
            base_url: Some("https://example.net".to_string()),
        }),
    );
    assert_eq!(c.report_url.as_deref(), Some("https://example.net/"));
}

#[test]
fn invalid_base_url_rejected() {
    let c = resolve_config(
        None,
        Some(ReportSpec { period_seconds: Some(60), base_url: Some("not a url".to_string()) }),
    );
    assert_eq!(c.report_url, None);
}

#[test]
fn monitor_spec_default_is_connection() {
    assert_eq!(MonitorSpec::default(), MonitorSpec::Connection);
}

#[test]
fn ssid_spec_default_is_empty() {
    let s = SsidSpec::default();
    assert_eq!(s.ssid_name, "");
    assert_eq!(s.ssid_pass, "");
}

#[test]
fn config_fields_carried_through() {
    let report = ReportSpec { period_seconds: Some(2), base_url: None };
    let c: Config = resolve_config(Some(MonitorSpec::All), Some(report.clone()));
    assert_eq!(c.monitor, Some(MonitorSpec::All));
    assert_eq!(c.report, Some(report));
}
