//! The laws of the liveness actor, proved of the state machine the actor's
//! contracts are written against: bootstrap of never-seen devices, duplicate
//! suppression for routine heartbeats, idempotence of anomalous stop reports,
//! deadline arming and firing, and recovery from `Offline`.

use crate::data_model::DeviceState;
use crate::device::{
    spec_deadline, spec_load, spec_process, ActorModel, ChangeModel, EventKind,
};
use vstd::prelude::*;

verus! {

/// No persisted record ever holds `New`.
pub open spec fn spec_never_new_stored(m: ActorModel) -> bool {
    m.stored matches Some(r) ==> r.device_state != DeviceState::New
}

/// The persisted state, where a record exists, equals the state most recently
/// computed by the state machine.
pub open spec fn spec_store_in_sync(m: ActorModel) -> bool {
    m.stored matches Some(r) ==> r.device_state == m.device_state
}

/// For a device never seen before — no stored record, freshly loaded — the
/// first processed report yields a persisted state other than `New` and
/// exactly one emitted event. A fired alarm is excluded: as the transition
/// table directs, an alarm for a device in `New` is an anomaly that neither
/// persists nor emits.
pub proof fn lemma_first_event_persists_and_emits(
    m: ActorModel,
    ev: EventKind,
    period_seconds: Option<u64>,
    now: u64,
)
    requires
        m.stored is None,
        m == spec_load(m),
        ev != EventKind::Alarm,
    ensures
        spec_process(m, ev, period_seconds, now).stored matches Some(r) && r.device_state
            != DeviceState::New,
        spec_process(m, ev, period_seconds, now).emitted.len() == m.emitted.len() + 1,
{
}

/// A run of ongoing reports, each with its optional declared period and its
/// processing time.
pub open spec fn spec_run_ongoing(m: ActorModel, reports: Seq<(Option<u64>, u64)>) -> ActorModel
    decreases reports.len(),
{
    if reports.len() == 0 {
        m
    } else {
        spec_run_ongoing(
            spec_process(m, EventKind::Ongoing, reports[0].0, reports[0].1),
            reports.skip(1),
        )
    }
}

/// Ongoing reports reaching a device already in `Reporting` reconfirm it:
/// however many arrive, the device stays `Reporting` and nothing further is
/// emitted or stored.
pub proof fn lemma_reconfirmations_emit_nothing(m: ActorModel, reports: Seq<(Option<u64>, u64)>)
    requires
        m.device_state == DeviceState::Reporting,
    ensures
        spec_run_ongoing(m, reports).device_state == DeviceState::Reporting,
        spec_run_ongoing(m, reports).emitted == m.emitted,
        spec_run_ongoing(m, reports).stored == m.stored,
    decreases reports.len(),
{
    if reports.len() > 0 {
        let m1 = spec_process(m, EventKind::Ongoing, reports[0].0, reports[0].1);
        lemma_reconfirmations_emit_nothing(m1, reports.skip(1));
    }
}

/// Any non-empty run of ongoing reports with no intervening fired deadline
/// leaves the device in `Reporting` and emits at most one event: exactly one
/// on the first transition into `Reporting`, none when the device was already
/// there.
pub proof fn lemma_ongoing_run_emits_at_most_once(m: ActorModel, reports: Seq<(Option<u64>, u64)>)
    requires
        reports.len() > 0,
    ensures
        spec_run_ongoing(m, reports).device_state == DeviceState::Reporting,
        spec_run_ongoing(m, reports).emitted == if m.device_state == DeviceState::Reporting {
            m.emitted
        } else {
            m.emitted.push(
                ChangeModel {
                    id: m.id,
                    state: DeviceState::Reporting,
                    connection: m.connection,
                    timestamp: reports[0].1,
                },
            )
        },
{
    let m1 = spec_process(m, EventKind::Ongoing, reports[0].0, reports[0].1);
    lemma_reconfirmations_emit_nothing(m1, reports.skip(1));
}

/// A stop report for a device already `Stopped` never changes the persisted
/// record and never emits an event; only the (already idle) alarm is
/// cancelled again.
pub proof fn lemma_stop_when_stopped_is_noop(m: ActorModel, period_seconds: Option<u64>, now: u64)
    requires
        m.device_state == DeviceState::Stopped,
    ensures
        spec_process(m, EventKind::Stop, period_seconds, now) == (ActorModel {
            alarm: None,
            ..m
        }),
{
    assert(spec_process(m, EventKind::Stop, period_seconds, now) =~~= (ActorModel {
        alarm: None,
        ..m
    }));
}

/// However many times a stop report is repeated, every application after the
/// first changes nothing at all.
pub proof fn lemma_stop_idempotent(
    m: ActorModel,
    p1: Option<u64>,
    n1: u64,
    p2: Option<u64>,
    n2: u64,
)
    ensures
        spec_process(spec_process(m, EventKind::Stop, p1, n1), EventKind::Stop, p2, n2)
            == spec_process(m, EventKind::Stop, p1, n1),
{
    let m1 = spec_process(m, EventKind::Stop, p1, n1);
    lemma_stop_when_stopped_is_noop(m1, p2, n2);
    assert(spec_process(m1, EventKind::Stop, p2, n2) =~~= m1);
}

/// Deadline correctness: an ongoing report with declared period `p` processed
/// at `t` arms the alarm for exactly `t + (p + margin) seconds` and leaves the
/// device `Reporting`; a deadline fired after that — `Device::alarm` requires
/// the firing time to be at or past the armed time, so an earlier one is not
/// deliverable — moves the device to `Offline` and emits exactly one event.
pub proof fn lemma_deadline_correctness(m: ActorModel, p: u64, t: u64, fire: u64)
    ensures
        spec_process(m, EventKind::Ongoing, Some(p), t).alarm == Some(spec_deadline(t, p)),
        spec_process(m, EventKind::Ongoing, Some(p), t).device_state == DeviceState::Reporting,
        spec_process(
            spec_process(m, EventKind::Ongoing, Some(p), t),
            EventKind::Alarm,
            None,
            fire,
        ).device_state == DeviceState::Offline,
        spec_process(
            spec_process(m, EventKind::Ongoing, Some(p), t),
            EventKind::Alarm,
            None,
            fire,
        ).emitted.len() == spec_process(m, EventKind::Ongoing, Some(p), t).emitted.len() + 1,
{
}

/// Recovery: an ongoing report reaching an `Offline` device moves it back to
/// `Reporting`, emits one event and re-arms the deadline.
pub proof fn lemma_recovery(m: ActorModel, p: u64, now: u64)
    requires
        m.device_state == DeviceState::Offline,
    ensures
        spec_process(m, EventKind::Ongoing, Some(p), now).device_state == DeviceState::Reporting,
        spec_process(m, EventKind::Ongoing, Some(p), now).emitted == m.emitted.push(
            ChangeModel {
                id: m.id,
                state: DeviceState::Reporting,
                connection: m.connection,
                timestamp: now,
            },
        ),
        spec_process(m, EventKind::Ongoing, Some(p), now).alarm == Some(spec_deadline(now, p)),
{
}

/// An invocation emits an event exactly when the externally visible state
/// changed, and then exactly one.
pub proof fn lemma_event_iff_state_change(
    m: ActorModel,
    ev: EventKind,
    period_seconds: Option<u64>,
    now: u64,
)
    ensures
        spec_process(m, ev, period_seconds, now).device_state == m.device_state ==> spec_process(
            m,
            ev,
            period_seconds,
            now,
        ).emitted == m.emitted,
        spec_process(m, ev, period_seconds, now).device_state != m.device_state ==> spec_process(
            m,
            ev,
            period_seconds,
            now,
        ).emitted.len() == m.emitted.len() + 1,
{
}

/// `New` is never persisted: every invocation preserves it, so by induction
/// no record ever holds it.
pub proof fn lemma_new_never_persisted(
    m: ActorModel,
    ev: EventKind,
    period_seconds: Option<u64>,
    now: u64,
)
    requires
        spec_never_new_stored(m),
    ensures
        spec_never_new_stored(spec_process(m, ev, period_seconds, now)),
{
}

/// Retried invocations are safe: the decision is pure given the loaded
/// record, so two actors holding the same durable state — whatever their
/// in-memory state, as after an aborted invocation or an eviction — process
/// an event identically.
pub proof fn lemma_retry_reobserves_stored_state(
    m1: ActorModel,
    m2: ActorModel,
    ev: EventKind,
    period_seconds: Option<u64>,
    now: u64,
)
    requires
        m1.id == m2.id,
        m1.stored == m2.stored,
        m1.alarm == m2.alarm,
        m1.emitted == m2.emitted,
    ensures
        spec_process(spec_load(m1), ev, period_seconds, now) == spec_process(
            spec_load(m2),
            ev,
            period_seconds,
            now,
        ),
{
    assert(spec_load(m1) =~~= spec_load(m2));
}

/// Once the record and the in-memory state agree — as they do right after a
/// load — every invocation keeps the persisted state equal to the state most
/// recently computed.
pub proof fn lemma_store_stays_in_sync(
    m: ActorModel,
    ev: EventKind,
    period_seconds: Option<u64>,
    now: u64,
)
    requires
        spec_store_in_sync(m),
    ensures
        spec_store_in_sync(spec_process(m, ev, period_seconds, now)),
        spec_store_in_sync(spec_load(m)),
{
}

} // verus!
