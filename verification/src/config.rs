//! The monitoring client's configuration: what to monitor, how often to
//! report and where to. Reading the file and decoding its TOML happen outside
//! the library; the library resolves the decoded values into an effective
//! configuration — the default reporting period, and a validated report URL.

use crate::urls::{parse_url, spec_url_normalized, spec_url_ok};
use vstd::prelude::*;

verus! {

/// The reporting period used when the configuration declares none, in
/// seconds.
pub const DEFAULT_PERIOD_SECONDS: u64 = 60;

/// What the monitor watches.
#[derive(Clone, Copy, Debug, PartialEq, Eq, Structural)]
pub enum MonitorSpec {
    /// Report the status of all SSIDs detected at each monitoring moment.
    All,
    /// Only report on the status of the connection used to send results.
    Connection,
}

impl Default for MonitorSpec {
    /// Monitoring only the connection in use is the default.
    fn default() -> (r: MonitorSpec)
        ensures
            r == MonitorSpec::Connection,
    {
        MonitorSpec::Connection
    }
}

/// How reporting is configured: how often, and to which base URL.
#[derive(Clone, Debug, PartialEq, Eq)]
pub struct ReportSpec {
    pub period_seconds: Option<u64>,
    pub base_url: Option<String>,
}

/// The resolved configuration the monitor runs with.
#[derive(Clone, Debug, PartialEq, Eq)]
pub struct Config {
    pub monitor: Option<MonitorSpec>,
    pub report: Option<ReportSpec>,
    /// The effective reporting period, in seconds.
    pub period_duration: u64,
    /// The validated report base URL, in its normalized serialization.
    pub report_url: Option<String>,
}

/// Credentials for joining one wireless network.
#[derive(Clone, Debug, PartialEq, Eq)]
pub struct SsidSpec {
    pub ssid_name: String,
    pub ssid_pass: String,
}

impl Default for SsidSpec {
    fn default() -> (r: SsidSpec)
        ensures
            r.ssid_name@ == Seq::<char>::empty(),
            r.ssid_pass@ == Seq::<char>::empty(),
    {
        proof {
            reveal_strlit("");
        }
        SsidSpec { ssid_name: "".to_owned(), ssid_pass: "".to_owned() }
    }
}

/// The effective reporting period: the declared one, or the default of 60
/// seconds where the report section or the period is missing.
pub open spec fn spec_effective_period(report: Option<ReportSpec>) -> u64 {
    match report {
        Some(spec) => match spec.period_seconds {
            Some(p) => p,
            None => DEFAULT_PERIOD_SECONDS,
        },
        None => DEFAULT_PERIOD_SECONDS,
    }
}

/// Resolves a decoded configuration: the effective period is the declared one
/// or 60 seconds, and the report URL is present exactly where the URL parser
/// accepts a declared base URL, holding its normalized form.
pub fn resolve_config(monitor: Option<MonitorSpec>, report: Option<ReportSpec>) -> (r: Config)
    ensures
        r.monitor == monitor,
        r.period_duration == spec_effective_period(report),
        (r.report_url matches Some(u) ==> (report matches Some(spec) && (spec.base_url
            matches Some(b) && u@ == spec_url_normalized(b@)))),
        report is None ==> r.report_url is None,
        (report matches Some(spec) ==> (spec.base_url is None ==> r.report_url is None)),
        (report matches Some(spec) ==> (spec.base_url matches Some(b) ==> (r.report_url is Some
            <==> spec_url_ok(b@)))),
        r.report == report,
{
    let period_duration: u64 = match &report {
        Some(spec) => match spec.period_seconds {
            Some(p) => p,
            None => DEFAULT_PERIOD_SECONDS,
        },
        None => DEFAULT_PERIOD_SECONDS,
    };
    let report_url: Option<String> = match &report {
        Some(spec) => match &spec.base_url {
            Some(url_string) => parse_url(url_string.as_str()),
            None => None,
        },
        None => None,
    };
    Config { monitor, report, period_duration, report_url }
}

} // verus!
