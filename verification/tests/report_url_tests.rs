use pingr::report_url::{ReportUrl, REPORT_URL_CAPACITY};

#[test]
fn url_builds_from_written_pieces() {
    let mut url = ReportUrl::new();
    assert_eq!(url.capacity(), 1024);
    assert_eq!(url.capacity(), REPORT_URL_CAPACITY);
    assert_eq!(url.len(), 0);
    url.write_str("https://example.net");
    url.write_str("/report/ongoing?device_id=");
    url.write_str("0123456789abcdef");
    assert_eq!(url.len(), "https://example.net/report/ongoing?device_id=0123456789abcdef".len());
    assert_eq!(
        url.as_str(),
        "https://example.net/report/ongoing?device_id=0123456789abcdef"
    );
}

#[test]
fn non_ascii_text_round_trips() {
    let mut url = ReportUrl::new();
    url.write_str("https://example.net/report?connection=ssid%3D");
    url.write_str("caf\u{E9}-r\u{E9}seau");
    assert_eq!(
        url.as_str(),
        "https://example.net/report?connection=ssid%3Dcaf\u{E9}-r\u{E9}seau"
    );
    // Byte-wise length: the two-byte characters count twice.
    assert_eq!(url.len(), "caf\u{E9}-r\u{E9}seau".len() + 45);
}

#[test]
fn writes_past_capacity_are_truncated() {
    let mut url = ReportUrl::new();
    let chunk = "x".repeat(600);
    url.write_str(&chunk);
    assert_eq!(url.len(), 600);
    url.write_str(&chunk);
    assert_eq!(url.len(), REPORT_URL_CAPACITY);
    let s = url.as_str();
    assert_eq!(s.len(), 1024);
    assert!(s.chars().all(|c| c == 'x'));
}
