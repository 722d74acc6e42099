//! The data types shared between the reporting client, the per-device
//! liveness actor and the downstream projections: reports, device states and
//! state-change events.

use vstd::prelude::*;
use vstd::string::*;

verus! {

/// Signal statistics attached to a connection report.
#[derive(Clone, Debug, PartialEq, Eq, Structural)]
pub struct Stats {
    pub power_dbs: i16,
}

/// The network connection a device reports over or about.
#[derive(Clone, Debug, PartialEq, Eq)]
pub enum Connection {
    SSID(String),
    Ethernet(String),
}

impl Connection {
    /// The display form of a connection, as it appears in report URLs and
    /// read-model keys.
    pub open spec fn spec_display(&self) -> Seq<char> {
        match self {
            Connection::Ethernet(mac) => "\tethernet="@ + mac@,
            Connection::SSID(ssid) => "\tssid="@ + ssid@,
        }
    }

    /// Renders the connection exactly as `spec_display` describes.
    pub fn to_display_string(&self) -> (r: String)
        ensures
            r@ == self.spec_display(),
    {
        match self {
            Connection::Ethernet(mac) => {
                let mut r = "\tethernet=".to_owned();
                r.append(mac.as_str());
                r
            },
            Connection::SSID(ssid) => {
                let mut r = "\tssid=".to_owned();
                r.append(ssid.as_str());
                r
            },
        }
    }
}

/// One monitored connection with its optional signal statistics.
#[derive(Clone, Debug, PartialEq, Eq)]
pub struct ConnectionReport {
    pub connection: Connection,
    pub stats: Option<Stats>,
}

/// Whether a report announces continued reporting or an intentional stop.
#[derive(Clone, Copy, Debug, PartialEq, Eq, Structural)]
pub enum ReportType {
    Stop,
    OnGoing,
}

impl ReportType {
    /// The display form of the report type.
    pub open spec fn spec_display(&self) -> Seq<char> {
        match self {
            ReportType::Stop => "Stop"@,
            ReportType::OnGoing => "OnGoing"@,
        }
    }

    pub fn to_display_string(&self) -> (r: String)
        ensures
            r@ == self.spec_display(),
    {
        match self {
            ReportType::Stop => "Stop".to_owned(),
            ReportType::OnGoing => "OnGoing".to_owned(),
        }
    }

    /// The lower-case form used in a report URL path, `"stop"` or
    /// `"ongoing"`.
    pub open spec fn spec_path_name(&self) -> Seq<char> {
        match self {
            ReportType::Stop => "stop"@,
            ReportType::OnGoing => "ongoing"@,
        }
    }

    pub fn path_name(&self) -> (r: &'static str)
        ensures
            r@ == self.spec_path_name(),
    {
        match self {
            ReportType::Stop => "stop",
            ReportType::OnGoing => "ongoing",
        }
    }
}

/// A full report from a monitoring device: the connection it used to send the
/// report, and optionally the connections it observed.
#[derive(Clone, Debug, PartialEq, Eq)]
pub struct MonitorReport {
    pub connection_used: Connection,
    pub connections: Vec<ConnectionReport>,
}

impl MonitorReport {
    /// The display form of a report: only the connection used is shown.
    pub open spec fn spec_display(&self) -> Seq<char> {
        "\tConnection Used = "@ + self.connection_used.spec_display()
    }

    pub fn to_display_string(&self) -> (r: String)
        ensures
            r@ == self.spec_display(),
    {
        let mut r = "\tConnection Used = ".to_owned();
        let c = self.connection_used.to_display_string();
        r.append(c.as_str());
        r
    }
}

impl Default for MonitorReport {
    /// The default report claims an ethernet connection labelled
    /// `"default"` and observes no connections.
    fn default() -> (r: MonitorReport)
        ensures
            r.connection_used matches Connection::Ethernet(m) && m@ == "default"@,
            r.connections@ =~= Seq::<ConnectionReport>::empty(),
    {
        MonitorReport { connection_used: Connection::Ethernet("default".to_owned()), connections: Vec::new() }
    }
}

/// Editable details kept about a device, separate from its liveness state.
#[derive(Clone, Debug, PartialEq, Eq)]
pub struct DeviceDetails {
    pub friendly_name: Option<String>,
}

impl Default for DeviceDetails {
    fn default() -> (r: DeviceDetails)
        ensures
            r.friendly_name is None,
    {
        DeviceDetails { friendly_name: None }
    }
}

/// The observed liveness status of one device.
#[derive(Clone, Copy, Debug, PartialEq, Eq, Structural)]
pub enum DeviceState {
    /// The state for this device has not been loaded from storage yet, and no
    /// stored record exists: the device has never been seen. `New` is never
    /// persisted, so the first event processed for a new device always
    /// produces a transition.
    New,
    /// The device stopped reporting intentionally and is not considered
    /// offline.
    Stopped,
    /// The device is reporting, and more reports are expected on time.
    Reporting,
    /// The device should be reporting, but a report did not arrive on time.
    Offline,
}

impl DeviceState {
    /// The display form of a device state.
    pub open spec fn spec_display(&self) -> Seq<char> {
        match self {
            DeviceState::New => "New"@,
            DeviceState::Stopped => "Stopped"@,
            DeviceState::Reporting => "Reporting"@,
            DeviceState::Offline => "Offline"@,
        }
    }

    pub fn to_display_string(&self) -> (r: String)
        ensures
            r@ == self.spec_display(),
    {
        match self {
            DeviceState::New => "New".to_owned(),
            DeviceState::Stopped => "Stopped".to_owned(),
            DeviceState::Reporting => "Reporting".to_owned(),
            DeviceState::Offline => "Offline".to_owned(),
        }
    }
}

/// A state-change event, emitted once per accepted transition of a device's
/// observed status.
#[derive(Clone, Debug, PartialEq, Eq)]
pub struct StateChange {
    pub id: String,
    pub state: DeviceState,
    pub connection: Option<String>,
    /// Milliseconds in the Unix epoch.
    pub timestamp: u64,
}

} // verus!
