//! The monitoring client's own logic: reading the connected SSID out of the
//! system tool's output, assembling the periodic report, and building the URL
//! the report is sent to. The surrounding process — running the system tool,
//! scanning for networks, the HTTP transfer and the periodic loop — lives
//! outside the library and hands plain values in.

use crate::config::{Config, MonitorSpec};
use crate::data_model::{Connection, ConnectionReport, MonitorReport, ReportType, Stats};
use crate::strutil::{
    parse_i16, spec_i16_accepts, spec_i16_value, spec_split, spec_trim, spec_u64_digits, split_char,
    str_eq, trim, u64_to_string,
};
use crate::urls::{join_url, spec_url_join_ok, spec_url_joined};
use vstd::prelude::*;
use vstd::string::*;

verus! {

/// The SSID one line of `iw dev` output names: on a line whose first
/// space-separated token is `ssid`, the second token (trimmed); none
/// otherwise.
pub open spec fn spec_line_ssid(line: Seq<char>) -> Option<Seq<char>> {
    let toks = spec_split(spec_trim(line), ' ');
    if toks.len() >= 2 && toks[0] == "ssid"@ {
        Some(spec_trim(toks[1]))
    } else {
        None
    }
}

/// The first SSID any line names.
pub open spec fn spec_first_ssid(lines: Seq<Seq<char>>) -> Option<Seq<char>>
    decreases lines.len(),
{
    if lines.len() == 0 {
        None
    } else if spec_line_ssid(lines[0]) is Some {
        spec_line_ssid(lines[0])
    } else {
        spec_first_ssid(lines.skip(1))
    }
}

/// What `parse_ssid` extracts from the tool output: the SSID named by the
/// first line that names one.
pub open spec fn spec_parse_ssid(data: Seq<char>) -> Option<Seq<char>> {
    spec_first_ssid(spec_split(data, '\n'))
}

/// Reads the connected SSID out of `iw dev` output, as `spec_parse_ssid`
/// describes: the line `ssid <name>` carries it.
pub fn parse_ssid(data: &str) -> (r: Option<String>)
    ensures
        (r matches Some(s) ==> spec_parse_ssid(data@) == Some(s@)),
        (r is None <==> spec_parse_ssid(data@) is None),
{
    let lines = split_char(data, '\n');
    let ghost all = lines.deep_view();
    let mut i: usize = 0;
    proof {
        assert(all.skip(0) =~= all);
    }
    while i < lines.len()
        invariant
            0 <= i <= lines@.len(),
            all == lines.deep_view(),
            all == spec_split(data@, '\n'),
            spec_first_ssid(all) == spec_first_ssid(all.skip(i as int)),
        decreases lines@.len() - i,
    {
        let trimmed = trim(lines[i].as_str());
        let toks = split_char(trimmed.as_str(), ' ');
        proof {
            assert(all.skip(i as int)[0] == all[i as int]);
            assert(all[i as int] == lines@[i as int]@);
            assert(toks.deep_view() == spec_split(spec_trim(all[i as int]), ' '));
        }
        if toks.len() >= 2 && str_eq(toks[0].as_str(), "ssid") {
            let r = trim(toks[1].as_str());
            proof {
                assert(toks.deep_view()[0] == toks@[0]@);
                assert(toks.deep_view()[1] == toks@[1]@);
                assert(spec_line_ssid(all[i as int]) == Some(r@));
            }
            return Some(r);
        }
        proof {
            assert(toks.deep_view()[0] == toks@[0]@);
            assert(spec_line_ssid(all[i as int]) is None);
            assert(all.skip(i as int).skip(1) =~= all.skip(i + 1));
        }
        i = i + 1;
    }
    proof {
        assert(all.skip(i as int) =~= Seq::<Seq<char>>::empty());
    }
    None
}

/// The signal level a scanner reported, as it enters the report: the decimal
/// value where it parses as an `i16`, and zero otherwise.
pub open spec fn spec_signal_level(s: Seq<char>) -> i16 {
    if spec_i16_accepts(s) {
        spec_i16_value(s) as i16
    } else {
        0
    }
}

/// Appends one scanned network to the report's connection list, with its
/// signal level.
pub fn add_report(report: &mut MonitorReport, ssid: String, signal_level: &str)
    ensures
        final(report).connection_used == old(report).connection_used,
        final(report).connections@ == old(report).connections@.push(
            (ConnectionReport {
                connection: Connection::SSID(ssid),
                stats: Some((Stats { power_dbs: spec_signal_level(signal_level@) })),
            }),
        ),
{
    let power_dbs: i16 = match parse_i16(signal_level) {
        Some(v) => v,
        None => 0,
    };
    report.connections.push(
        ConnectionReport { connection: Connection::SSID(ssid), stats: Some(Stats { power_dbs }) },
    );
}

/// The networks a report carries, given what the scanner saw: under
/// `MonitorSpec::All` every scanned network, under `MonitorSpec::Connection`
/// only those matching the connected SSID — each with its parsed signal
/// level.
pub open spec fn spec_scan_reports(
    ssid: Seq<char>,
    scanned: Seq<(String, String)>,
    monitor: MonitorSpec,
) -> Seq<ConnectionReport>
    decreases scanned.len(),
{
    if scanned.len() == 0 {
        Seq::empty()
    } else {
        let rest = spec_scan_reports(ssid, scanned.skip(1), monitor);
        if monitor == MonitorSpec::All || scanned[0].0@ == ssid {
            seq![
                (ConnectionReport {
                    connection: Connection::SSID(scanned[0].0),
                    stats: Some((Stats { power_dbs: spec_signal_level(scanned[0].1@) })),
                }),
            ] + rest
        } else {
            rest
        }
    }
}

/// Assembles the periodic report: the connection in use, and the scanned
/// networks `spec_scan_reports` selects, each as `(ssid, signal level)`.
pub fn build_report(ssid: String, scanned: &Vec<(String, String)>, monitor: MonitorSpec) -> (r:
    MonitorReport)
    ensures
        r.connection_used == Connection::SSID(ssid),
        r.connections@ == spec_scan_reports(ssid@, scanned@, monitor),
{
    let mut report = MonitorReport { connection_used: Connection::SSID(ssid), connections: Vec::new() };
    let ghost ssid_view = report.connection_used->SSID_0@;
    let mut i: usize = 0;
    proof {
        assert(scanned@.skip(0) =~= scanned@);
        assert(report.connections@ + spec_scan_reports(ssid_view, scanned@, monitor)
            =~= spec_scan_reports(ssid_view, scanned@, monitor));
    }
    while i < scanned.len()
        invariant
            0 <= i <= scanned@.len(),
            report.connection_used == Connection::SSID(ssid),
            ssid_view == ssid@,
            spec_scan_reports(ssid_view, scanned@, monitor) == report.connections@
                + spec_scan_reports(ssid_view, scanned@.skip(i as int), monitor),
        decreases scanned@.len() - i,
    {
        let matches_connection = str_eq(scanned[i].0.as_str(), report_ssid(&report));
        let ghost before = report.connections@;
        if matches!(monitor, MonitorSpec::All) || matches_connection {
            add_report(&mut report, scanned[i].0.clone(), scanned[i].1.as_str());
        }
        proof {
            assert(scanned@.skip(i as int)[0] == scanned@[i as int]);
            assert(scanned@.skip(i as int).skip(1) =~= scanned@.skip(i + 1));
            if monitor == MonitorSpec::All || scanned@[i as int].0@ == ssid_view {
                assert(before.push(
                    (ConnectionReport {
                        connection: Connection::SSID(scanned@[i as int].0),
                        stats: Some(
                            (Stats { power_dbs: spec_signal_level(scanned@[i as int].1@) }),
                        ),
                    }),
                ) + spec_scan_reports(ssid_view, scanned@.skip(i + 1), monitor)
                    =~= before + spec_scan_reports(ssid_view, scanned@.skip(i as int), monitor));
            }
        }
        i = i + 1;
    }
    proof {
        assert(spec_scan_reports(ssid_view, scanned@.skip(i as int), monitor)
            =~= Seq::<ConnectionReport>::empty());
        assert(report.connections@ + Seq::<ConnectionReport>::empty() =~= report.connections@);
    }
    report
}

/// The SSID the report's connection in use names.
fn report_ssid(report: &MonitorReport) -> (r: &str)
    requires
        report.connection_used matches Connection::SSID(s),
    ensures
        report.connection_used matches Connection::SSID(s) && r@ == s@,
{
    match &report.connection_used {
        Connection::SSID(s) => s.as_str(),
        Connection::Ethernet(m) => m.as_str(),
    }
}

/// The relative URL of one report: the report type's lower-case name in the
/// path, then the device, the displayed connection and the period as query
/// parameters.
pub open spec fn spec_report_query(
    report_type: ReportType,
    device_id: Seq<char>,
    connection: Seq<char>,
    period: u64,
) -> Seq<char> {
    "report/"@ + report_type.spec_path_name() + "?device_id="@ + device_id + "&connection="@
        + connection + "&period="@ + spec_u64_digits(period as int)
}

/// Builds the relative report URL, exactly as `spec_report_query` describes.
pub fn report_query(report_type: ReportType, device_id: &str, connection: &str, period: u64) -> (r:
    String)
    ensures
        r@ == spec_report_query(report_type, device_id@, connection@, period),
{
    let mut r = "report/".to_owned();
    r.append(report_type.path_name());
    r.append("?device_id=");
    r.append(device_id);
    r.append("&connection=");
    r.append(connection);
    r.append("&period=");
    let p = u64_to_string(period);
    r.append(p.as_str());
    r
}

/// The full URL one report is sent to: the relative report URL resolved
/// against the configured base URL. Present exactly where a base URL is
/// configured and the resolver accepts the combination; absent otherwise.
pub fn report_url_for(
    config: &Config,
    device_id: &str,
    report_type: ReportType,
    report: &MonitorReport,
) -> (r: Option<String>)
    ensures
        config.report_url is None ==> r is None,
        (config.report_url matches Some(b) ==> (r is Some <==> spec_url_join_ok(
            b@,
            spec_report_query(
                report_type,
                device_id@,
                report.connection_used.spec_display(),
                config.period_duration,
            ),
        ))),
        (r matches Some(u) ==> (config.report_url matches Some(b) && u@ == spec_url_joined(
            b@,
            spec_report_query(
                report_type,
                device_id@,
                report.connection_used.spec_display(),
                config.period_duration,
            ),
        ))),
{
    match &config.report_url {
        Some(base) => {
            let connection = report.connection_used.to_display_string();
            let rel = report_query(
                report_type,
                device_id,
                connection.as_str(),
                config.period_duration,
            );
            join_url(base.as_str(), rel.as_str())
        },
        None => None,
    }
}

} // verus!
