//! Decisions of the background health-check and retry task: when a token
//! check is due, which queued items to try, and what each outcome means.
//!
//! The task itself (timers, channels, portal calls) runs outside the library
//! and drives `HealthTask` with what happened.

use crate::portal_manager::{is_item_stuck, item_stuck, HealthState, ItemId, PortalEvent};
use crate::portal_queue::{QueueFile, QueuedItem, CURRENT_VERSION};
use crate::utc_time::UtcTime;
use vstd::prelude::*;

verus! {

/// Check cadence while healthy: five minutes, in nanoseconds.
pub const GREEN_CADENCE_NANOS: u64 = 300_000_000_000;

/// Check cadence while degraded: fifteen seconds, in nanoseconds.
pub const DEGRADED_CADENCE_NANOS: u64 = 15_000_000_000;

/// How often the task wakes to re-evaluate, in nanoseconds.
pub const POLL_INTERVAL_NANOS: u64 = 2_000_000_000;

/// Least spacing between two attempts of one item: fifteen seconds, in
/// nanoseconds.
pub const ITEM_RETRY_SPACING_NANOS: i128 = 15_000_000_000;

/// Whether the background task may try this item at `now`: stuck items wait
/// for the operator; others may be tried if never tried, or if the last try
/// is at least fifteen seconds old.
pub open spec fn retry_eligible(item: QueuedItem, now: UtcTime) -> bool {
    !item_stuck(item, now) && match item.last_attempt_at {
        None => true,
        Some(last) => now@ - last@ >= ITEM_RETRY_SPACING_NANOS,
    }
}

pub fn is_item_retry_eligible(item: &QueuedItem, now: UtcTime) -> (r: bool)
    ensures
        r == retry_eligible(*item, now),
{
    if is_item_stuck(item, now) {
        return false;
    }
    match item.last_attempt_at {
        None => true,
        Some(last) => now.nanos_since(&last) >= ITEM_RETRY_SPACING_NANOS,
    }
}

/// What the background loop should do on its next wakeup.
#[derive(Debug, Clone, Copy, PartialEq, Eq)]
pub enum NextAction {
    /// Wait until the monotonic reading `at` (nanoseconds), then re-evaluate.
    SleepUntil(u64),
    /// Fire a token health check.
    HealthCheck,
    /// Retry the queued item at this position.
    RetryItem(usize),
}

/// The health state the check cadence depends on.
#[derive(Debug, Clone)]
pub struct HealthDecisionState {
    pub current_health: HealthState,
}

impl HealthDecisionState {
    pub open spec fn cadence(self) -> u64 {
        match self.current_health {
            HealthState::Green => GREEN_CADENCE_NANOS,
            HealthState::Yellow | HealthState::Red => DEGRADED_CADENCE_NANOS,
        }
    }

    /// Time between checks, in nanoseconds: five minutes while Green, fifteen
    /// seconds while Yellow or Red.
    pub fn next_cadence(&self) -> (r: u64)
        ensures
            r == self.cadence(),
    {
        match self.current_health {
            HealthState::Green => GREEN_CADENCE_NANOS,
            HealthState::Yellow | HealthState::Red => DEGRADED_CADENCE_NANOS,
        }
    }

    pub open spec fn check_due(self, elapsed_since_last: Option<u64>) -> bool {
        match elapsed_since_last {
            None => true,
            Some(elapsed) => elapsed >= self.cadence(),
        }
    }

    /// Whether a check is due, given the nanoseconds since the last
    /// successful exchange; `None` (never succeeded) is always due.
    pub fn is_health_check_due(&self, elapsed_since_last: Option<u64>) -> (r: bool)
        ensures
            r == self.check_due(elapsed_since_last),
    {
        match elapsed_since_last {
            None => true,
            Some(elapsed) => elapsed >= self.next_cadence(),
        }
    }
}

/// A check is due exactly when a full cadence has passed since the last
/// success, or when there has never been one; the degraded cadence is never
/// longer than the healthy one.
pub proof fn lemma_check_due_iff_cadence_elapsed(s: HealthDecisionState, elapsed: u64)
    ensures
        s.check_due(None),
        s.check_due(Some(elapsed)) <==> elapsed >= s.cadence(),
        s.cadence() <= GREEN_CADENCE_NANOS,
        s.current_health != HealthState::Green ==> s.cadence() == DEGRADED_CADENCE_NANOS,
{
}

/// Commands from the user-interface side to the background task.
#[derive(Debug, Clone)]
pub enum PortalCommand {
    VerifyNow,
    ItemEnqueued(ItemId),
    RetryItem(ItemId),
    /// Replaces the task's view of the queue.
    QueueUpdated(QueueFile),
    Shutdown,
}

/// Why a portal call failed.
#[derive(Debug)]
pub enum PortalCallError {
    /// The call reached the portal and did not succeed.
    Failed(String),
    /// The call never reached the portal.
    Unreachable(String),
}

/// What to do after posting an item's scores.
#[derive(Debug)]
pub enum AfterScores {
    /// Post the stats next.
    PostStats,
    /// Stop here, emit the event; the attempt failed.
    Failed(PortalEvent),
}

/// The background task's state. `last_success` is the monotonic reading (in
/// nanoseconds) of the last successful exchange.
#[derive(Debug)]
pub struct HealthTask {
    pub last_success: Option<u64>,
    pub current_health: HealthState,
    pub queue_snapshot: QueueFile,
}

impl HealthTask {
    /// A fresh task: never succeeded, Green, an empty queue of the current
    /// version.
    pub fn new() -> (r: HealthTask)
        ensures
            r.last_success is None,
            r.current_health == HealthState::Green,
            r.queue_snapshot.version == CURRENT_VERSION,
            r.queue_snapshot.items@.len() == 0,
    {
        HealthTask {
            last_success: None,
            current_health: HealthState::Green,
            queue_snapshot: QueueFile::empty(),
        }
    }

    /// Applies a command (`None`: the command channel closed). Returns whether
    /// the task keeps running. A verify request or an item notice forgets the
    /// last success, so a check is due on the next tick; a new queue replaces
    /// the snapshot.
    pub fn on_command(&mut self, cmd: Option<PortalCommand>) -> (keep_running: bool)
        ensures
            keep_running == !(cmd is None || cmd matches Some(PortalCommand::Shutdown)),
            final(self).current_health == old(self).current_health,
            match cmd {
                Some(PortalCommand::VerifyNow) => final(self).last_success is None
                    && final(self).queue_snapshot == old(self).queue_snapshot,
                Some(PortalCommand::ItemEnqueued(_)) => final(self).last_success is None
                    && final(self).queue_snapshot == old(self).queue_snapshot,
                Some(PortalCommand::RetryItem(_)) => final(self).last_success is None
                    && final(self).queue_snapshot == old(self).queue_snapshot,
                Some(PortalCommand::QueueUpdated(q)) => final(self).queue_snapshot == q
                    && final(self).last_success == old(self).last_success,
                _ => final(self).last_success == old(self).last_success
                    && final(self).queue_snapshot == old(self).queue_snapshot,
            },
    {
        match cmd {
            None | Some(PortalCommand::Shutdown) => false,
            Some(PortalCommand::VerifyNow) => {
                self.last_success = None;
                true
            },
            Some(PortalCommand::ItemEnqueued(_)) | Some(PortalCommand::RetryItem(_)) => {
                self.last_success = None;
                true
            },
            Some(PortalCommand::QueueUpdated(q)) => {
                self.queue_snapshot = q;
                true
            },
        }
    }

    /// Positions of the snapshot's items to try on this tick, in queue order:
    /// exactly the retry-eligible ones at `now`.
    pub fn items_to_attempt(&self, now: UtcTime) -> (r: Vec<usize>)
        ensures
            forall|x: int| 0 <= x < r@.len() ==> (#[trigger] r@[x]) < self.queue_snapshot.items@.len(),
            forall|x: int, y: int| 0 <= x < y < r@.len() ==> #[trigger] r@[x] < #[trigger] r@[y],
            forall|k: int|
                0 <= k < self.queue_snapshot.items@.len() ==> (#[trigger] r@.contains(k as usize)
                    <==> retry_eligible(self.queue_snapshot.items@[k], now)),
    {
        let items = &self.queue_snapshot.items;
        let mut out: Vec<usize> = Vec::new();
        let mut i: usize = 0;
        while i < items.len()
            invariant
                0 <= i <= items@.len(),
                forall|x: int| 0 <= x < out@.len() ==> (#[trigger] out@[x]) < i,
                forall|x: int, y: int| 0 <= x < y < out@.len() ==> #[trigger] out@[x] < #[trigger] out@[y],
                forall|k: int|
                    0 <= k < i ==> (#[trigger] out@.contains(k as usize) <==> retry_eligible(
                        items@[k],
                        now,
                    )),
            decreases items@.len() - i,
        {
            let ghost before = out@;
            if is_item_retry_eligible(&items[i], now) {
                out.push(i);
                proof {
                    assert forall|k: int| 0 <= k < i + 1 implies (#[trigger] out@.contains(
                        k as usize,
                    ) <==> retry_eligible(items@[k], now)) by {
                        if k < i {
                            if before.contains(k as usize) {
                                let x = choose|x: int| 0 <= x < before.len() && before[x] == k as usize;
                                assert(out@[x] == k as usize);
                            }
                            if out@.contains(k as usize) {
                                let x = choose|x: int| 0 <= x < out@.len() && out@[x] == k as usize;
                                assert(x < before.len());
                                assert(before[x] == k as usize);
                            }
                        } else {
                            assert(out@[before.len() as int] == i);
                        }
                    }
                }
            } else {
                proof {
                    assert(!before.contains(i));
                }
            }
            i = i + 1;
        }
        out
    }

    /// Records the outcome of an item attempt: a full success (scores and
    /// stats) counts as a successful exchange at `now_mono`; a failure does
    /// not, so the cadence-driven check still fires during an outage.
    pub fn record_attempt(&mut self, succeeded: bool, now_mono: u64)
        ensures
            final(self).last_success == (if succeeded {
                Some(now_mono)
            } else {
                old(self).last_success
            }),
            final(self).current_health == old(self).current_health,
            final(self).queue_snapshot == old(self).queue_snapshot,
    {
        if succeeded {
            self.last_success = Some(now_mono);
        }
    }

    pub open spec fn elapsed_at(self, now_mono: u64) -> Option<u64> {
        match self.last_success {
            None => None,
            Some(t) => Some(if now_mono >= t {
                (now_mono - t) as u64
            } else {
                0
            }),
        }
    }

    /// Whether a token check is due at `now_mono`, by the cadence of the
    /// current health.
    pub fn health_check_due(&self, now_mono: u64) -> (r: bool)
        ensures
            r == (HealthDecisionState { current_health: self.current_health }).check_due(
                self.elapsed_at(now_mono),
            ),
    {
        let elapsed: Option<u64> = match self.last_success {
            None => None,
            Some(t) => Some(
                if now_mono >= t {
                    now_mono - t
                } else {
                    0
                },
            ),
        };
        let state = HealthDecisionState { current_health: self.current_health };
        state.is_health_check_due(elapsed)
    }

    /// Records a token check's outcome and returns the health to announce:
    /// success is a successful exchange at `now_mono` and Green; failure is
    /// Red.
    pub fn record_health_check(&mut self, ok: bool, now_mono: u64) -> (announce: HealthState)
        ensures
            announce == final(self).current_health,
            ok ==> final(self).current_health == HealthState::Green && final(self).last_success
                == Some(now_mono),
            !ok ==> final(self).current_health == HealthState::Red && final(self).last_success
                == old(self).last_success,
            final(self).queue_snapshot == old(self).queue_snapshot,
    {
        if ok {
            self.last_success = Some(now_mono);
            self.current_health = HealthState::Green;
        } else {
            self.current_health = HealthState::Red;
        }
        self.current_health
    }
}

/// What to do once an item's scores were posted (`true`) or refused.
pub fn after_scores(item_id: &ItemId, scores_ok: bool) -> (r: AfterScores)
    ensures
        scores_ok ==> r is PostStats,
        !scores_ok ==> (r matches AfterScores::Failed(PortalEvent::ItemUpdated(id)) && id@ == item_id@),
{
    if scores_ok {
        AfterScores::PostStats
    } else {
        AfterScores::Failed(PortalEvent::ItemUpdated(item_id.duplicate()))
    }
}

/// The event after an item's stats were posted (`true`) or refused, and
/// whether the whole attempt succeeded.
pub fn after_stats(item_id: &ItemId, stats_ok: bool) -> (r: (PortalEvent, bool))
    ensures
        r.1 == stats_ok,
        stats_ok ==> (r.0 matches PortalEvent::ItemResolved(id) && id@ == item_id@),
        !stats_ok ==> (r.0 matches PortalEvent::ItemUpdated(id) && id@ == item_id@),
{
    if stats_ok {
        (PortalEvent::ItemResolved(item_id.duplicate()), true)
    } else {
        (PortalEvent::ItemUpdated(item_id.duplicate()), false)
    }
}

/// When a token check falls due: at once when there has never been a
/// successful exchange; otherwise exactly when the time since the last one
/// has reached five minutes while Green, fifteen seconds while Yellow or Red,
/// so that one success never stops later checks. A clock reading earlier than
/// the last success counts as no time passed.
pub proof fn lemma_check_falls_due_after_the_cadence(task: HealthTask, now_mono: u64)
    ensures
        task.last_success is None ==> (HealthDecisionState {
            current_health: task.current_health,
        }).check_due(task.elapsed_at(now_mono)),
        task.last_success matches Some(t) ==> {
            let due = (HealthDecisionState { current_health: task.current_health }).check_due(
                task.elapsed_at(now_mono),
            );
            &&& now_mono >= t ==> task.elapsed_at(now_mono) == Some((now_mono - t) as u64)
            &&& now_mono >= t && task.current_health == HealthState::Green ==> (due <==> now_mono
                - t >= 300_000_000_000)
            &&& now_mono >= t && task.current_health != HealthState::Green ==> (due <==> now_mono
                - t >= 15_000_000_000)
            &&& now_mono < t ==> !due
        },
{
}

/// Which items the background task tries: a score-pending item queued for
/// thirty minutes or more is stuck and waits for the operator; a
/// stats-pending item is never stuck; any other item is tried when it has
/// never been tried, or when its last try is at least fifteen seconds old.
pub proof fn lemma_retry_eligibility(item: QueuedItem, now: UtcTime)
    ensures
        !item.score_sent && now@ - item.queued_at@ >= 1_800_000_000_000 ==> !retry_eligible(
            item,
            now,
        ),
        item.score_sent || now@ - item.queued_at@ < 1_800_000_000_000 ==> (retry_eligible(item, now)
            <==> match item.last_attempt_at {
            None => true,
            Some(last) => now@ - last@ >= 15_000_000_000,
        }),
{
}

/// A stuck item is never tried automatically, however long ago its last
/// attempt was.
pub proof fn lemma_stuck_items_wait_for_operator(item: QueuedItem, now: UtcTime)
    requires
        item_stuck(item, now),
    ensures
        !retry_eligible(item, now),
{
}

} // verus!
