//! The per-device liveness actor: a single-writer state machine addressed by
//! device identity. On every invocation it loads its persisted record (a
//! missing record reads as [`DeviceState::New`]), decides the transition for
//! the incoming event, arms or cancels its deadline alarm, persists the new
//! record and emits a [`StateChange`] — the last three only when the computed
//! next state differs from the loaded one.
//!
//! The actor's collaborators — the durable store, the single-shot alarm and
//! the state-change queue — are held as plain values of the actor itself, so
//! every effect of an invocation is verified: `stored` is the durable record,
//! `alarm` the armed wake-up time, and `emitted` the sequence of events handed
//! to the downstream channel.
//!
//! The hosting platform serializes invocations per device identity, so the
//! actor needs no synchronization of its own. An invocation whose store or
//! queue fails is simply retried by the caller: the decision is pure given
//! the loaded record (see `lemma_retry_reobserves_stored_state`), so a retry
//! re-observes the prior persisted status and decides the same way.

use crate::data_model::{DeviceState, StateChange};
use crate::strutil::{
    clone_opt_string, parse_u64, path_segment, spec_decimal_body, spec_digits_val,
    spec_path_segment, spec_u64_accepts, spec_u64_digits, str_eq, u64_to_string,
};
use vstd::prelude::*;
use vstd::string::*;

verus! {

/// Grace period, in seconds, added to a device-declared reporting interval to
/// absorb network and processing jitter before the device is declared
/// offline.
pub const MARGIN_SECONDS: u64 = 5;

/// The durable record persisted for one device: its last computed state and
/// the connection it last reported over.
#[derive(Clone, Debug, PartialEq, Eq)]
pub struct DeviceRecord {
    pub device_state: DeviceState,
    pub connection: Option<String>,
}

/// The mathematical value of a [`DeviceRecord`].
#[verifier::ext_equal]
pub ghost struct RecordModel {
    pub device_state: DeviceState,
    pub connection: Option<Seq<char>>,
}

/// The mathematical value of a [`StateChange`].
#[verifier::ext_equal]
pub ghost struct ChangeModel {
    pub id: Seq<char>,
    pub state: DeviceState,
    pub connection: Option<Seq<char>>,
    pub timestamp: u64,
}

/// The mathematical value of a [`Device`]: its in-memory state, its durable
/// record, its armed alarm (a wake-up time in milliseconds), and the events
/// emitted so far.
#[verifier::ext_equal]
pub ghost struct ActorModel {
    pub id: Seq<char>,
    pub device_state: DeviceState,
    pub connection: Option<Seq<char>>,
    pub stored: Option<RecordModel>,
    pub alarm: Option<int>,
    pub emitted: Seq<ChangeModel>,
}

pub open spec fn spec_opt_str(o: Option<String>) -> Option<Seq<char>> {
    match o {
        None => None,
        Some(s) => Some(s@),
    }
}

pub open spec fn spec_record(r: DeviceRecord) -> RecordModel {
    RecordModel { device_state: r.device_state, connection: spec_opt_str(r.connection) }
}

pub open spec fn spec_change(c: StateChange) -> ChangeModel {
    ChangeModel {
        id: c.id@,
        state: c.state,
        connection: spec_opt_str(c.connection),
        timestamp: c.timestamp,
    }
}

/// The kind of event an invocation carries: an ongoing report, a stop report,
/// or a fired deadline alarm.
#[derive(Clone, Copy, Debug, PartialEq, Eq, Structural)]
pub enum EventKind {
    Ongoing,
    Stop,
    Alarm,
}

/// How a report type string is classified: `"ongoing"` and `"stop"` name the
/// two report kinds, and anything else reaches the actor only as a fired
/// alarm.
pub open spec fn spec_event_kind(report_type: Seq<char>) -> EventKind {
    if report_type == "ongoing"@ {
        EventKind::Ongoing
    } else if report_type == "stop"@ {
        EventKind::Stop
    } else {
        EventKind::Alarm
    }
}

/// The transition table of the state machine. An ongoing report always leads
/// to `Reporting`, a stop report always to `Stopped`; a fired alarm moves
/// `Reporting` to `Offline` and is an anomaly (no transition) in every other
/// state.
pub open spec fn spec_next_state(cur: DeviceState, ev: EventKind) -> DeviceState {
    match ev {
        EventKind::Ongoing => DeviceState::Reporting,
        EventKind::Stop => DeviceState::Stopped,
        EventKind::Alarm => if cur == DeviceState::Reporting {
            DeviceState::Offline
        } else {
            cur
        },
    }
}

/// The alarm deadline armed for an ongoing report with declared period `p`,
/// processed at `now` (milliseconds): `now + (p + margin) * 1000`.
pub open spec fn spec_deadline(now: u64, p: u64) -> int {
    now + (p + MARGIN_SECONDS) * 1000
}

/// What the alarm holds after an event: an ongoing report with a declared
/// period re-arms it (superseding any armed wake-up), a stop report cancels
/// it, and an ongoing report without a period or a fired alarm leaves it
/// unchanged.
pub open spec fn spec_alarm_after(
    alarm: Option<int>,
    ev: EventKind,
    period_seconds: Option<u64>,
    now: u64,
) -> Option<int> {
    match ev {
        EventKind::Ongoing => match period_seconds {
            Some(p) => Some(spec_deadline(now, p)),
            None => alarm,
        },
        EventKind::Stop => None,
        EventKind::Alarm => alarm,
    }
}

/// Moving to `next` at `timestamp`: when `next` differs from the current
/// state, the new record is persisted and exactly one state-change event is
/// emitted; otherwise nothing is stored and nothing is emitted.
pub open spec fn spec_transition(m: ActorModel, next: DeviceState, timestamp: u64) -> ActorModel {
    if next == m.device_state {
        m
    } else {
        ActorModel {
            device_state: next,
            stored: Some(RecordModel { device_state: next, connection: m.connection }),
            emitted: m.emitted.push(
                ChangeModel { id: m.id, state: next, connection: m.connection, timestamp },
            ),
            ..m
        }
    }
}

/// One invocation of the actor on an already-loaded model: the alarm is armed
/// or cancelled as the event directs, then the transition (if any) is
/// persisted and emitted.
pub open spec fn spec_process(
    m: ActorModel,
    ev: EventKind,
    period_seconds: Option<u64>,
    now: u64,
) -> ActorModel {
    let armed = ActorModel { alarm: spec_alarm_after(m.alarm, ev, period_seconds, now), ..m };
    spec_transition(armed, spec_next_state(m.device_state, ev), now)
}

/// Loading reconciles the in-memory state with the durable record: a missing
/// record reads as `New` with no connection.
pub open spec fn spec_load(m: ActorModel) -> ActorModel {
    match m.stored {
        None => ActorModel { device_state: DeviceState::New, connection: None, ..m },
        Some(r) => ActorModel { device_state: r.device_state, connection: r.connection, ..m },
    }
}

/// A freshly created actor for a never-seen device: nothing stored, nothing
/// armed, nothing emitted.
pub open spec fn spec_init(id: Seq<char>) -> ActorModel {
    ActorModel {
        id,
        device_state: DeviceState::New,
        connection: None,
        stored: None,
        alarm: None,
        emitted: Seq::empty(),
    }
}

/// The acknowledgement string an invocation returns: the timestamp, the
/// device identity and the post-transition state.
pub open spec fn spec_ack(now: u64, id: Seq<char>, state: DeviceState) -> Seq<char> {
    "TimeStamp: "@ + spec_u64_digits(now as int) + " Device ID: "@ + id + " State: "@
        + state.spec_display()
}

/// The connection label after folding a query-pair list over a default: the
/// value of the last `connection` key wins.
pub open spec fn spec_query_connection(
    q: Seq<(String, String)>,
    acc: Option<Seq<char>>,
) -> Option<Seq<char>>
    decreases q.len(),
{
    if q.len() == 0 {
        acc
    } else {
        spec_query_connection(
            q.skip(1),
            if q[0].0@ == "connection"@ {
                Some(q[0].1@)
            } else {
                acc
            },
        )
    }
}

/// The declared period after folding a query-pair list: the last `period` key
/// wins, with its value parsed as a decimal `u64` (an unparsable value resets
/// the period to none).
pub open spec fn spec_query_period(q: Seq<(String, String)>, acc: Option<u64>) -> Option<u64>
    decreases q.len(),
{
    if q.len() == 0 {
        acc
    } else {
        spec_query_period(
            q.skip(1),
            if q[0].0@ == "period"@ {
                if spec_u64_accepts(q[0].1@) {
                    Some(spec_digits_val(spec_decimal_body(q[0].1@)) as u64)
                } else {
                    None
                }
            } else {
                acc
            },
        )
    }
}

/// One full invocation from a request: the record is loaded, the query pairs
/// override the connection and supply the declared period, and the event
/// named by the third path segment is processed.
pub open spec fn spec_fetch(
    m: ActorModel,
    path: Seq<char>,
    q: Seq<(String, String)>,
    now: u64,
) -> ActorModel {
    let loaded = spec_load(m);
    let with_conn = ActorModel {
        connection: spec_query_connection(q, loaded.connection),
        ..loaded
    };
    spec_process(
        with_conn,
        spec_event_kind(spec_path_segment(path, 2).unwrap()),
        spec_query_period(q, None),
        now,
    )
}

/// The device identity a request's query pairs name: the value of the last
/// `device_id` key, if any.
pub open spec fn spec_query_device_id(
    q: Seq<(String, String)>,
    acc: Option<Seq<char>>,
) -> Option<Seq<char>>
    decreases q.len(),
{
    if q.len() == 0 {
        acc
    } else {
        spec_query_device_id(
            q.skip(1),
            if q[0].0@ == "device_id"@ {
                Some(q[0].1@)
            } else {
                acc
            },
        )
    }
}

/// Reads the device identity out of a request's query pairs, as the dispatch
/// layer does before routing the request to that device's actor.
pub fn query_device_id(query: &Vec<(String, String)>) -> (r: Option<String>)
    ensures
        (r matches Some(s) ==> spec_query_device_id(query@, None) == Some(s@)),
        (r is None <==> spec_query_device_id(query@, None) is None),
{
    let mut found: Option<String> = None;
    let mut i: usize = 0;
    proof {
        assert(query@.skip(0) =~= query@);
    }
    while i < query.len()
        invariant
            0 <= i <= query@.len(),
            (found matches Some(s) ==> spec_query_device_id(query@, None) == spec_query_device_id(
                query@.skip(i as int),
                Some(s@),
            )),
            (found is None ==> spec_query_device_id(query@, None) == spec_query_device_id(
                query@.skip(i as int),
                None,
            )),
        decreases query@.len() - i,
    {
        if str_eq(query[i].0.as_str(), "device_id") {
            found = Some(query[i].1.clone());
        }
        proof {
            assert(query@.skip(i as int).skip(1) =~= query@.skip(i + 1));
        }
        i = i + 1;
    }
    proof {
        assert(query@.skip(i as int) =~= Seq::<(String, String)>::empty());
    }
    found
}

/// The per-device liveness actor, together with its modelled collaborators:
/// the durable record, the single-shot alarm and the emitted event log.
pub struct Device {
    id: String,
    device_state: DeviceState,
    connection: Option<String>,
    stored: Option<DeviceRecord>,
    alarm: Option<u64>,
    emitted: Vec<StateChange>,
}

impl View for Device {
    type V = ActorModel;

    closed spec fn view(&self) -> ActorModel {
        ActorModel {
            id: self.id@,
            device_state: self.device_state,
            connection: spec_opt_str(self.connection),
            stored: match self.stored {
                None => None,
                Some(r) => Some(spec_record(r)),
            },
            alarm: match self.alarm {
                None => None,
                Some(a) => Some(a as int),
            },
            emitted: Seq::new(self.emitted@.len(), |i: int| spec_change(self.emitted@[i])),
        }
    }
}

impl Device {
    /// A fresh actor for a device that has never been seen: no stored record,
    /// no armed alarm, no emitted events.
    pub fn new(id: String) -> (d: Device)
        ensures
            d@ == spec_init(id@),
    {
        let d = Device {
            id,
            device_state: DeviceState::New,
            connection: None,
            stored: None,
            alarm: None,
            emitted: Vec::new(),
        };
        proof {
            assert(d@ =~~= spec_init(d.id@));
        }
        d
    }

    /// The device identity this actor is addressed by.
    pub fn id(&self) -> (r: &String)
        ensures
            r@ == self@.id,
    {
        &self.id
    }

    /// The in-memory state of the actor.
    pub fn device_state(&self) -> (r: DeviceState)
        ensures
            r == self@.device_state,
    {
        self.device_state
    }

    /// The connection the device last reported over, as held in memory.
    pub fn connection(&self) -> (r: &Option<String>)
        ensures
            spec_opt_str(*r) == self@.connection,
    {
        &self.connection
    }

    /// The durable record, as the store currently holds it.
    pub fn stored_record(&self) -> (r: &Option<DeviceRecord>)
        ensures
            (*r matches Some(rec) ==> self@.stored == Some(spec_record(rec))),
            (*r is None ==> self@.stored is None),
    {
        &self.stored
    }

    /// The armed wake-up time in milliseconds, if any.
    pub fn alarm_deadline(&self) -> (r: Option<u64>)
        ensures
            (r matches Some(a) ==> self@.alarm == Some(a as int)),
            (r is None ==> self@.alarm is None),
    {
        self.alarm
    }

    /// The state-change events emitted so far, oldest first.
    pub fn emitted(&self) -> (r: &Vec<StateChange>)
        ensures
            r@.len() == self@.emitted.len(),
            forall|i: int| 0 <= i < r@.len() ==> spec_change(r@[i]) == self@.emitted[i],
    {
        &self.emitted
    }

    /// Models eviction and re-activation of the actor: the in-memory state is
    /// reset, while the durable record, the armed alarm and the already
    /// emitted events persist.
    pub fn restart(&mut self)
        ensures
            final(self)@ == (ActorModel {
                device_state: DeviceState::New,
                connection: None,
                ..old(self)@
            }),
    {
        self.device_state = DeviceState::New;
        self.connection = None;
    }

    /// Retrieves the device's record from durable storage, as `spec_load`
    /// describes.
    fn load(&mut self)
        ensures
            final(self)@ == spec_load(old(self)@),
    {
        match &self.stored {
            None => {
                self.device_state = DeviceState::New;
                self.connection = None;
            },
            Some(r) => {
                self.device_state = r.device_state;
                self.connection = clone_opt_string(&r.connection);
            },
        }
        proof {
            assert(self@ =~~= spec_load(old(self)@));
        }
    }

    /// Writes the in-memory state to durable storage.
    fn store(&mut self)
        ensures
            final(self)@ == (ActorModel {
                stored: Some(
                    RecordModel {
                        device_state: old(self)@.device_state,
                        connection: old(self)@.connection,
                    },
                ),
                ..old(self)@
            }),
    {
        self.stored = Some(
            DeviceRecord {
                device_state: self.device_state,
                connection: clone_opt_string(&self.connection),
            },
        );
        proof {
            assert(self@ =~~= (ActorModel {
                stored: Some(
                    RecordModel {
                        device_state: old(self)@.device_state,
                        connection: old(self)@.connection,
                    },
                ),
                ..old(self)@
            }));
        }
    }

    /// Moves the device to `new_state` if that differs from the current
    /// state: the new record is stored and exactly one state-change event is
    /// emitted. A reconfirmation of the current state stores and emits
    /// nothing.
    fn new_state(&mut self, new_state: DeviceState, timestamp: u64)
        ensures
            final(self)@ == spec_transition(old(self)@, new_state, timestamp),
    {
        if !(self.device_state == new_state) {
            self.device_state = new_state;
            self.store();
            let change = StateChange {
                id: self.id.clone(),
                state: new_state,
                connection: clone_opt_string(&self.connection),
                timestamp,
            };
            let ghost before = self@;
            self.emitted.push(change);
            proof {
                assert(self@.emitted =~~= before.emitted.push(spec_change(change)));
                assert(self@ =~~= spec_transition(old(self)@, new_state, timestamp));
            }
        }
    }

    /// Processes one report or fired alarm at `now_millis`, implementing the
    /// transition table: an ongoing report moves the device to `Reporting`
    /// and re-arms the alarm for `now + (period + margin) seconds`; a stop
    /// report cancels the alarm and moves the device to `Stopped`; a fired
    /// alarm moves a `Reporting` device to `Offline` and is an anomalous
    /// no-op in every other state. The new record is stored and one event is
    /// emitted exactly when the state changed. Returns the acknowledgement
    /// for the caller, which reflects the post-transition state.
    pub fn process_report(
        &mut self,
        report_type: &str,
        period_seconds: Option<u64>,
        now_millis: u64,
    ) -> (r: String)
        requires
            spec_event_kind(report_type@) == EventKind::Ongoing ==> (period_seconds matches Some(p)
                ==> spec_deadline(now_millis, p) <= u64::MAX),
        ensures
            final(self)@ == spec_process(
                old(self)@,
                spec_event_kind(report_type@),
                period_seconds,
                now_millis,
            ),
            r@ == spec_ack(now_millis, old(self)@.id, final(self)@.device_state),
    {
        if str_eq(report_type, "ongoing") {
            if let Some(period) = period_seconds {
                self.alarm = Some(now_millis + (period + MARGIN_SECONDS) * 1000);
            }
            self.new_state(DeviceState::Reporting, now_millis);
        } else if str_eq(report_type, "stop") {
            self.alarm = None;
            self.new_state(DeviceState::Stopped, now_millis);
        } else {
            match self.device_state {
                DeviceState::Reporting => self.new_state(DeviceState::Offline, now_millis),
                // A report is overdue while the device is in a state that
                // expects no report: an anomaly, with no transition.
                _ => {},
            }
        }
        proof {
            assert(self@ =~~= spec_process(
                old(self)@,
                spec_event_kind(report_type@),
                period_seconds,
                now_millis,
            ));
        }
        let mut ack = "TimeStamp: ".to_owned();
        let ts = u64_to_string(now_millis);
        ack.append(ts.as_str());
        ack.append(" Device ID: ");
        ack.append(self.id.as_str());
        ack.append(" State: ");
        let st = self.device_state.to_display_string();
        ack.append(st.as_str());
        ack
    }

    /// The armed deadline has expired with no intervening report. The alarm
    /// fires at most once and never before its armed time — a deadline can
    /// not be delivered early, which the precondition states — and firing
    /// consumes it. The record is re-loaded and the fired alarm is processed
    /// as `spec_process` describes.
    pub fn alarm(&mut self, now_millis: u64) -> (r: String)
        requires
            old(self)@.alarm matches Some(deadline) && now_millis >= deadline,
        ensures
            final(self)@ == spec_process(
                spec_load((ActorModel { alarm: None, ..old(self)@ })),
                EventKind::Alarm,
                None,
                now_millis,
            ),
            r@ == spec_ack(now_millis, old(self)@.id, final(self)@.device_state),
    {
        self.alarm = None;
        self.load();
        proof {
            reveal_strlit("alarm");
            reveal_strlit("ongoing");
            reveal_strlit("stop");
            assert("alarm"@.len() == 5);
            assert(spec_event_kind("alarm"@) == EventKind::Alarm);
        }
        self.process_report("alarm", None, now_millis)
    }

    /// One invocation from a routed request: the report type is the third
    /// segment of the URL path, the query pairs may override the connection
    /// label and declare the period, and the record is loaded before the
    /// decision, as `spec_fetch` describes.
    pub fn fetch(&mut self, path: &str, query: &Vec<(String, String)>, now_millis: u64) -> (r:
        String)
        requires
            spec_path_segment(path@, 2) is Some,
            spec_event_kind(spec_path_segment(path@, 2).unwrap()) == EventKind::Ongoing ==> (
            spec_query_period(query@, None) matches Some(p) ==> spec_deadline(now_millis, p)
                <= u64::MAX),
        ensures
            final(self)@ == spec_fetch(old(self)@, path@, query@, now_millis),
            r@ == spec_ack(now_millis, old(self)@.id, final(self)@.device_state),
    {
        let report_type = path_segment(path, 2).unwrap();
        self.load();
        let mut period: Option<u64> = None;
        let mut i: usize = 0;
        let ghost loaded_conn = self@.connection;
        proof {
            reveal_strlit("connection");
            reveal_strlit("period");
            assert(query@.skip(0) =~= query@);
        }
        while i < query.len()
            invariant
                0 <= i <= query@.len(),
                self@ == (ActorModel {
                    connection: self@.connection,
                    ..spec_load(old(self)@)
                }),
                spec_query_connection(query@, loaded_conn) == spec_query_connection(
                    query@.skip(i as int),
                    self@.connection,
                ),
                spec_query_period(query@, None) == spec_query_period(
                    query@.skip(i as int),
                    period,
                ),
                loaded_conn == spec_load(old(self)@).connection,
            decreases query@.len() - i,
        {
            let pair = &query[i];
            if str_eq(pair.0.as_str(), "connection") {
                self.connection = Some(pair.1.clone());
            } else if str_eq(pair.0.as_str(), "period") {
                period = parse_u64(pair.1.as_str());
            }
            proof {
                reveal_strlit("connection");
                reveal_strlit("period");
                assert("connection"@.len() == 10);
                assert(query@.skip(i as int).skip(1) =~= query@.skip(i + 1));
                assert(self@ =~~= (ActorModel {
                    connection: self@.connection,
                    ..spec_load(old(self)@)
                }));
            }
            i = i + 1;
        }
        proof {
            assert(query@.skip(i as int) =~= Seq::<(String, String)>::empty());
            assert(self@ =~~= (ActorModel {
                connection: spec_query_connection(query@, loaded_conn),
                ..spec_load(old(self)@)
            }));
        }
        self.process_report(report_type.as_str(), period, now_millis)
    }
}

} // verus!
