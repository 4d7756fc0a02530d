//! The replay guard: what the evaluator remembers of one pseudonym, and the
//! freshness checks that a report has to pass against that memory.
//!
//! An identity is `Unseen` until its first report, `Active` while its reports
//! keep coming, and `Stale` once it has been silent for longer than the
//! rotation interval. A stale identity is forgotten: its next report is met
//! as the first report of an unseen one.

use vstd::prelude::*;
use crate::model::AnomalyType;
use crate::model::Position;
use crate::model::Timestamp;
use crate::model::DAY_MS;
use crate::policy::EvaluatorConfig;

verus! {

/// One raised anomaly, as the rolling window remembers it.
#[derive(Debug, Clone, Copy, PartialEq, Eq, Structural)]
pub struct AnomalyRecord {
    /// When it was raised.
    pub at: Timestamp,
    /// Its category.
    pub kind: AnomalyType,
}

/// What the evaluator remembers of one pseudonym.
#[derive(Debug, Clone)]
pub struct IdentityState {
    /// Sequence number of the last accepted report.
    pub last_sequence: u64,
    /// Epoch of the last accepted report.
    pub last_epoch: u64,
    /// Position of the last accepted report.
    pub last_position: Position,
    /// Timestamp of the last accepted report.
    pub last_timestamp: Timestamp,
    /// Bearing of the last measured move (millidegrees), if one was measured.
    pub last_bearing: Option<u32>,
    /// The anomalies raised in the last 24 hours, oldest first.
    pub anomaly_window: Vec<AnomalyRecord>,
    /// When the identity was last evaluated.
    pub last_access: Timestamp,
}

/// An `IdentityState` as a mathematical value.
pub struct IdentityStateView {
    pub last_sequence: u64,
    pub last_epoch: u64,
    pub last_position: Position,
    pub last_timestamp: Timestamp,
    pub last_bearing: Option<u32>,
    pub anomaly_window: Seq<AnomalyRecord>,
    pub last_access: Timestamp,
}

impl View for IdentityState {
    type V = IdentityStateView;

    open spec fn view(&self) -> IdentityStateView {
        IdentityStateView {
            last_sequence: self.last_sequence,
            last_epoch: self.last_epoch,
            last_position: self.last_position,
            last_timestamp: self.last_timestamp,
            last_bearing: self.last_bearing,
            anomaly_window: self.anomaly_window@,
            last_access: self.last_access,
        }
    }
}

/// Where an identity stands in its life.
#[derive(Debug, Clone, Copy, PartialEq, Eq, Structural)]
pub enum GuardState {
    /// No report was seen yet, or what was seen has been forgotten.
    Unseen,
    /// Reports are coming in.
    Active,
    /// No report came for longer than the rotation interval.
    Stale,
}

/// The verdict of the guard on one report. The guard only judges: whether a
/// report that fails a check is dropped is for the caller to decide.
#[derive(Debug, Clone, Copy, PartialEq, Eq, Structural)]
pub struct ReplayVerdict {
    /// The sequence number moved forward within the epoch, or the epoch did.
    pub not_replay: bool,
    /// The timestamp lies within the clock-skew tolerance of the evaluation.
    pub timestamp_fresh: bool,
    /// The epoch is the current network epoch or one next to it.
    pub pseudonym_valid: bool,
    /// The report did not follow the previous one too closely.
    pub rate_limit_ok: bool,
}

impl ReplayVerdict {
    /// Whether the report may move the identity's memory forward: it passed
    /// the replay, freshness and pseudonym checks.
    pub open spec fn accepted(&self) -> bool {
        self.not_replay && self.timestamp_fresh && self.pseudonym_valid
    }

    /// Tells whether the report may move the identity's memory forward.
    pub fn is_accepted(&self) -> (accepted: bool)
        ensures
            accepted == self.accepted(),
    {
        self.not_replay && self.timestamp_fresh && self.pseudonym_valid
    }
}

/// The time from `then` to `now`, and 0 where `then` is not in the past.
pub open spec fn elapsed(now: int, then: int) -> int {
    if now >= then {
        now - then
    } else {
        0
    }
}

/// The distance between two instants or two epochs.
pub open spec fn distance(a: int, b: int) -> int {
    if a >= b {
        a - b
    } else {
        b - a
    }
}

/// Where the identity with the memory `state` stands at the instant `now`.
pub open spec fn guard_state(
    state: Option<IdentityStateView>,
    now: int,
    rotation_interval: int,
) -> GuardState {
    match state {
        None => GuardState::Unseen,
        Some(memory) => if elapsed(now, memory.last_access as int) > rotation_interval {
            GuardState::Stale
        } else {
            GuardState::Active
        },
    }
}

/// The memory that counts at the instant `now`: that of an active identity.
/// The memory of a stale identity does not count any more.
pub open spec fn live(
    state: Option<IdentityStateView>,
    now: int,
    rotation_interval: int,
) -> Option<IdentityStateView> {
    if guard_state(state, now, rotation_interval) == GuardState::Active {
        state
    } else {
        None
    }
}

/// The verdict on a report with the given sequence number, epoch and
/// timestamp, met with the memory `memory` at the instant `now` of the
/// epoch `current_epoch`.
pub open spec fn verdict(
    sequence: int,
    epoch: int,
    timestamp: int,
    memory: Option<IdentityStateView>,
    now: int,
    current_epoch: int,
    config: EvaluatorConfig,
) -> ReplayVerdict {
    ReplayVerdict {
        not_replay: match memory {
            None => true,
            Some(m) => (epoch == m.last_epoch && sequence > m.last_sequence) || epoch
                > m.last_epoch,
        },
        timestamp_fresh: distance(now, timestamp) <= config.max_clock_skew_ms,
        pseudonym_valid: distance(epoch, current_epoch) <= 1,
        rate_limit_ok: match memory {
            None => true,
            Some(m) => elapsed(now, m.last_access as int) >= config.min_report_interval_ms,
        },
    }
}

/// Whether a record is less than 24 hours old at the instant `now`.
pub open spec fn is_recent(record: AnomalyRecord, now: int) -> bool {
    elapsed(now, record.at as int) < DAY_MS
}

/// The records of `window` that are less than 24 hours old at the instant
/// `now`, in their order.
pub open spec fn recent(window: Seq<AnomalyRecord>, now: int) -> Seq<AnomalyRecord>
    decreases window.len(),
{
    if window.len() == 0 {
        Seq::empty()
    } else if is_recent(window.last(), now) {
        recent(window.drop_last(), now).push(window.last())
    } else {
        recent(window.drop_last(), now)
    }
}

/// The number of records of `window` that are of the category `kind`.
pub open spec fn count_of(window: Seq<AnomalyRecord>, kind: AnomalyType) -> nat
    decreases window.len(),
{
    if window.len() == 0 {
        0
    } else if window.last().kind == kind {
        count_of(window.drop_last(), kind) + 1
    } else {
        count_of(window.drop_last(), kind)
    }
}

/// One record for each anomaly of `raised`, made at the instant `now`.
pub open spec fn records(raised: Seq<AnomalyType>, now: Timestamp) -> Seq<AnomalyRecord> {
    Seq::new(raised.len(), |i: int| AnomalyRecord { at: now, kind: raised[i] })
}

/// The rolling window after an evaluation at the instant `now` that raised
/// `raised`: what is left of the old window, then the new records.
pub open spec fn next_window(
    memory: Option<IdentityStateView>,
    raised: Seq<AnomalyType>,
    now: Timestamp,
) -> Seq<AnomalyRecord> {
    match memory {
        None => records(raised, now),
        Some(m) => recent(m.anomaly_window, now as int) + records(raised, now),
    }
}

/// Every record that `recent` keeps is recent, and it is a record of the
/// window.
pub proof fn lemma_recent_keeps_recent(window: Seq<AnomalyRecord>, now: int)
    ensures
        forall|i: int|
            0 <= i < recent(window, now).len() ==> is_recent(
                #[trigger] recent(window, now)[i],
                now,
            ) && window.contains(recent(window, now)[i]),
    decreases window.len(),
{
    if window.len() > 0 {
        let earlier = window.drop_last();
        lemma_recent_keeps_recent(earlier, now);
        assert forall|i: int| 0 <= i < recent(window, now).len() implies is_recent(
            #[trigger] recent(window, now)[i],
            now,
        ) && window.contains(recent(window, now)[i]) by {
            if i < recent(earlier, now).len() {
                let kept = recent(earlier, now)[i];
                let j = choose|j: int| 0 <= j < earlier.len() && earlier[j] == kept;
                assert(window[j] == kept);
            } else {
                assert(window[window.len() - 1] == window.last());
            }
        }
    }
}

/// The memory of the identity after the evaluation of a report. A report
/// that the guard accepted, and the first report of an identity, set the
/// remembered sequence number, epoch, position and timestamp; any other
/// leaves them as they were. The window and the time of last access move on
/// with every evaluation.
pub open spec fn next_state(
    sequence: u64,
    epoch: u64,
    position: Position,
    timestamp: Timestamp,
    bearing: Option<u32>,
    memory: Option<IdentityStateView>,
    accepted: bool,
    raised: Seq<AnomalyType>,
    now: Timestamp,
) -> IdentityStateView {
    match memory {
        Some(m) if !accepted => IdentityStateView {
            anomaly_window: next_window(memory, raised, now),
            last_access: now,
            ..m
        },
        _ => IdentityStateView {
            last_sequence: sequence,
            last_epoch: epoch,
            last_position: position,
            last_timestamp: timestamp,
            last_bearing: bearing,
            anomaly_window: next_window(memory, raised, now),
            last_access: now,
        },
    }
}

/// Measures the time from `then` to `now`.
pub fn elapsed_since(now: Timestamp, then: Timestamp) -> (time: u64)
    ensures
        time == elapsed(now as int, then as int),
{
    if now >= then {
        now - then
    } else {
        0
    }
}

/// Measures the distance between two instants or two epochs.
pub fn distance_between(a: u64, b: u64) -> (d: u64)
    ensures
        d == distance(a as int, b as int),
{
    if a >= b {
        a - b
    } else {
        b - a
    }
}

/// The view of an optional memory.
pub open spec fn view_of(state: Option<&IdentityState>) -> Option<IdentityStateView> {
    match state {
        Some(memory) => Some(memory@),
        None => None,
    }
}

/// Tells where an identity stands at the instant `now`.
pub fn classify_state(state: Option<&IdentityState>, now: Timestamp, rotation_interval_ms: u64) -> (s:
    GuardState)
    ensures
        s == guard_state(view_of(state), now as int, rotation_interval_ms as int),
{
    match state {
        None => GuardState::Unseen,
        Some(memory) => {
            if elapsed_since(now, memory.last_access) > rotation_interval_ms {
                GuardState::Stale
            } else {
                GuardState::Active
            }
        },
    }
}

/// Picks the memory that counts at the instant `now`.
pub fn live_state<'a>(
    state: Option<&'a IdentityState>,
    now: Timestamp,
    rotation_interval_ms: u64,
) -> (memory: Option<&'a IdentityState>)
    ensures
        view_of(memory) == live(view_of(state), now as int, rotation_interval_ms as int),
{
    match classify_state(state, now, rotation_interval_ms) {
        GuardState::Active => state,
        _ => None,
    }
}

/// Judges a report against the memory that counts.
pub fn check_report(
    sequence: u64,
    epoch: u64,
    timestamp: Timestamp,
    memory: Option<&IdentityState>,
    now: Timestamp,
    current_epoch: u64,
    config: &EvaluatorConfig,
) -> (v: ReplayVerdict)
    ensures
        v == verdict(
            sequence as int,
            epoch as int,
            timestamp as int,
            view_of(memory),
            now as int,
            current_epoch as int,
            *config,
        ),
{
    let not_replay = match memory {
        None => true,
        Some(m) => (epoch == m.last_epoch && sequence > m.last_sequence) || epoch > m.last_epoch,
    };
    let rate_limit_ok = match memory {
        None => true,
        Some(m) => elapsed_since(now, m.last_access) >= config.min_report_interval_ms,
    };
    ReplayVerdict {
        not_replay,
        timestamp_fresh: distance_between(now, timestamp) <= config.max_clock_skew_ms,
        pseudonym_valid: distance_between(epoch, current_epoch) <= 1,
        rate_limit_ok,
    }
}

/// Builds the rolling window that follows an evaluation.
pub fn roll_window(memory: Option<&IdentityState>, raised: &Vec<AnomalyType>, now: Timestamp) -> (window:
    Vec<AnomalyRecord>)
    ensures
        window@ == next_window(view_of(memory), raised@, now),
{
    let mut window: Vec<AnomalyRecord> = Vec::new();
    match memory {
        None => {},
        Some(m) => {
            let mut i: usize = 0;
            while i < m.anomaly_window.len()
                invariant
                    i <= m.anomaly_window.len(),
                    window@ == recent(m.anomaly_window@.take(i as int), now as int),
                decreases m.anomaly_window.len() - i,
            {
                let record = m.anomaly_window[i];
                proof {
                    let next = m.anomaly_window@.take(i + 1);
                    assert(next.drop_last() == m.anomaly_window@.take(i as int));
                    assert(next.last() == record);
                }
                if elapsed_since(now, record.at) < DAY_MS {
                    window.push(record);
                }
                i = i + 1;
            }
            assert(m.anomaly_window@.take(i as int) == m.anomaly_window@);
        },
    }
    let ghost kept = window@;
    let mut j: usize = 0;
    while j < raised.len()
        invariant
            j <= raised.len(),
            window@ == kept + records(raised@.take(j as int), now),
        decreases raised.len() - j,
    {
        window.push(AnomalyRecord { at: now, kind: raised[j] });
        assert(window@ == kept + records(raised@.take(j + 1), now));
        j = j + 1;
    }
    assert(raised@.take(j as int) == raised@);
    window
}

/// Counts the records of one category.
pub fn count_kind(window: &Vec<AnomalyRecord>, kind: AnomalyType) -> (n: usize)
    ensures
        n == count_of(window@, kind),
{
    let mut n: usize = 0;
    let mut i: usize = 0;
    while i < window.len()
        invariant
            i <= window.len(),
            n == count_of(window@.take(i as int), kind),
            n <= i,
        decreases window.len() - i,
    {
        proof {
            let next = window@.take(i + 1);
            assert(next.drop_last() == window@.take(i as int));
            assert(next.last() == window@[i as int]);
        }
        if window[i].kind == kind {
            n = n + 1;
        }
        i = i + 1;
    }
    assert(window@.take(i as int) == window@);
    n
}

/// Builds the memory that follows an evaluation.
pub fn advance(
    sequence: u64,
    epoch: u64,
    position: Position,
    timestamp: Timestamp,
    bearing: Option<u32>,
    memory: Option<&IdentityState>,
    accepted: bool,
    raised: &Vec<AnomalyType>,
    now: Timestamp,
) -> (state: IdentityState)
    ensures
        state@ == next_state(
            sequence,
            epoch,
            position,
            timestamp,
            bearing,
            view_of(memory),
            accepted,
            raised@,
            now,
        ),
{
    let window = roll_window(memory, raised, now);
    match memory {
        Some(m) if !accepted => IdentityState {
            last_sequence: m.last_sequence,
            last_epoch: m.last_epoch,
            last_position: m.last_position,
            last_timestamp: m.last_timestamp,
            last_bearing: m.last_bearing,
            anomaly_window: window,
            last_access: now,
        },
        _ => IdentityState {
            last_sequence: sequence,
            last_epoch: epoch,
            last_position: position,
            last_timestamp: timestamp,
            last_bearing: bearing,
            anomaly_window: window,
            last_access: now,
        },
    }
}

} // verus!
