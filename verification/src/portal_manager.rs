//! The portal submission manager's state: the retry queue, the token and
//! connection flags, the indicator shown to the operator, the recent-success
//! strip, and the rows of the detail page.
//!
//! Every method here is the state change of one operator action or one report
//! from the background task. Writing the queue to disk and telling the
//! background task about a new queue are left to the caller, in the order the
//! method documentation gives.

use crate::portal_queue::{QueueFile, QueuedItem};
use crate::utc_time::{UtcTime, NANOS_PER_SEC};
use vstd::prelude::*;

verus! {

/// Maximum number of recent successes shown at the bottom of the detail page.
pub const RECENT_SUCCESS_CAP: usize = 5;

/// How long an item may sit in the queue, in nanoseconds, before it escalates
/// from Yellow (silently retrying) to Red (the operator must decide).
pub const STUCK_THRESHOLD_NANOS: i128 = 1_800_000_000_000;

/// Overall health of the portal connection.
#[derive(Debug, Clone, Copy, PartialEq, Eq, Structural)]
pub enum HealthState {
    /// Last exchange succeeded; queue is empty; token is valid.
    Green,
    /// A check is in flight, or a score is still waiting to go up.
    Yellow,
    /// Something needs the operator's attention.
    Red,
}

/// What the time banner shows about the portal.
#[derive(Debug, Clone, Copy, PartialEq, Eq, Structural)]
pub struct PortalIndicatorState {
    pub health: HealthState,
    /// True when the saved login token is known to be rejected.
    pub token_expired: bool,
}

impl Default for PortalIndicatorState {
    fn default() -> (r: PortalIndicatorState)
        ensures
            r.health == HealthState::Green,
            !r.token_expired,
    {
        PortalIndicatorState { health: HealthState::Green, token_expired: false }
    }
}

/// Unique identifier of a queued item.
#[derive(Debug, Clone, PartialEq, Eq, Hash)]
pub struct ItemId {
    pub event_id: String,
    pub game_number: String,
}

impl View for ItemId {
    type V = (Seq<char>, Seq<char>);

    open spec fn view(&self) -> (Seq<char>, Seq<char>) {
        (self.event_id@, self.game_number@)
    }
}

impl ItemId {
    /// A copy of this id.
    pub fn duplicate(&self) -> (r: ItemId)
        ensures
            r@ == self@,
    {
        ItemId { event_id: self.event_id.clone(), game_number: self.game_number.clone() }
    }

    /// Whether the two ids name the same item.
    pub fn same(&self, other: &ItemId) -> (r: bool)
        ensures
            r == (self@ == other@),
    {
        self.event_id == other.event_id && self.game_number == other.game_number
    }
}

/// Event emitted by the background task.
#[derive(Debug, Clone)]
pub enum PortalEvent {
    HealthChanged(HealthState),
    ItemResolved(ItemId),
    ItemUpdated(ItemId),
    /// The score posted but the stats upload failed.
    ScoreSentStatsPending(ItemId),
    /// Result of a token probe that reached the portal: accepted or rejected.
    TokenStatus(bool),
    /// A token probe could not reach the portal at all.
    TokenUnreachable,
}

/// One row of the portal detail page.
#[derive(Debug, Clone)]
pub enum DetailRow {
    TokenExpired,
    Stuck { id: ItemId, game_number: String },
    Pending { id: ItemId, game_number: String, attempts: u32 },
    StatsPending { id: ItemId, game_number: String },
    RecentSuccess { game_number: String, submitted_mins_ago: u32 },
}

/// A detail-page row, with its texts as character sequences.
pub enum DetailRowView {
    TokenExpired,
    Stuck { id: (Seq<char>, Seq<char>), game_number: Seq<char> },
    Pending { id: (Seq<char>, Seq<char>), game_number: Seq<char>, attempts: u32 },
    StatsPending { id: (Seq<char>, Seq<char>), game_number: Seq<char> },
    RecentSuccess { game_number: Seq<char>, submitted_mins_ago: u32 },
}

impl View for DetailRow {
    type V = DetailRowView;

    open spec fn view(&self) -> DetailRowView {
        match self {
            DetailRow::TokenExpired => DetailRowView::TokenExpired,
            DetailRow::Stuck { id, game_number } => DetailRowView::Stuck {
                id: id@,
                game_number: game_number@,
            },
            DetailRow::Pending { id, game_number, attempts } => DetailRowView::Pending {
                id: id@,
                game_number: game_number@,
                attempts: *attempts,
            },
            DetailRow::StatsPending { id, game_number } => DetailRowView::StatsPending {
                id: id@,
                game_number: game_number@,
            },
            DetailRow::RecentSuccess { game_number, submitted_mins_ago } =>
                DetailRowView::RecentSuccess {
                game_number: game_number@,
                submitted_mins_ago: *submitted_mins_ago,
            },
        }
    }
}

/// The views of a list of rows.
pub open spec fn row_views(rows: Seq<DetailRow>) -> Seq<DetailRowView> {
    rows.map_values(|r: DetailRow| r@)
}

/// Record of a successful submission, kept only while the program runs.
/// `submitted_at` is a monotonic-clock reading in nanoseconds.
#[derive(Debug, Clone)]
pub struct RecentSuccess {
    pub id: ItemId,
    pub game_number: String,
    pub submitted_at: u64,
}

/// Whether an item has waited past the stuck threshold. Stats-pending items
/// (score already accepted) never go stuck.
pub open spec fn item_stuck(item: QueuedItem, now: UtcTime) -> bool {
    !item.score_sent && now@ - item.queued_at@ >= STUCK_THRESHOLD_NANOS
}

pub fn is_item_stuck(item: &QueuedItem, now: UtcTime) -> (r: bool)
    ensures
        r == item_stuck(*item, now),
{
    !item.score_sent && now.nanos_since(&item.queued_at) >= STUCK_THRESHOLD_NANOS
}

pub open spec fn any_stuck(items: Seq<QueuedItem>, now: UtcTime) -> bool {
    exists|i: int| 0 <= i < items.len() && item_stuck(#[trigger] items[i], now)
}

pub open spec fn any_score_pending(items: Seq<QueuedItem>) -> bool {
    exists|i: int| 0 <= i < items.len() && !(#[trigger] items[i]).score_sent
}

/// Position of the first item with the given id at or after `k`.
pub open spec fn position_from(items: Seq<QueuedItem>, id: (Seq<char>, Seq<char>), k: int) -> Option<
    int,
>
    decreases items.len() - k,
{
    if k < 0 || k >= items.len() {
        None
    } else if items[k].id@ == id {
        Some(k)
    } else {
        position_from(items, id, k + 1)
    }
}

/// Position of the first item with the given id.
/// The positions, in order, of the stats-pending items of a queue.
pub open spec fn stats_pending_positions(items: Seq<QueuedItem>) -> Seq<usize>
    decreases items.len(),
{
    if items.len() == 0 {
        Seq::empty()
    } else {
        let prev = stats_pending_positions(items.drop_last());
        if items.last().score_sent {
            prev.push((items.len() - 1) as usize)
        } else {
            prev
        }
    }
}

/// The stats sweep names each stats-pending item exactly once, in queue
/// order, and no other item: every position holds a stats-pending item, the
/// positions increase, and every stats-pending item's position is among them.
pub proof fn lemma_stats_sweep_is_exactly_the_stats_pending(items: Seq<QueuedItem>)
    requires
        items.len() <= usize::MAX,
    ensures
        forall|j: int|
            0 <= j < stats_pending_positions(items).len() ==> (
            #[trigger] stats_pending_positions(items)[j]) < items.len()
                && items[stats_pending_positions(items)[j] as int].score_sent,
        forall|j1: int, j2: int|
            0 <= j1 < j2 < stats_pending_positions(items).len() ==> (
            #[trigger] stats_pending_positions(items)[j1]) < (
            #[trigger] stats_pending_positions(items)[j2]),
        forall|k: int|
            0 <= k < items.len() && #[trigger] items[k].score_sent ==> stats_pending_positions(
                items,
            ).contains(k as usize),
    decreases items.len(),
{
    if items.len() > 0 {
        let p = items.drop_last();
        lemma_stats_sweep_is_exactly_the_stats_pending(p);
        let prev = stats_pending_positions(p);
        let r = stats_pending_positions(items);
        assert(((items.len() - 1) as usize) as int == items.len() - 1);
        assert forall|j: int| 0 <= j < prev.len() implies r[j] == prev[j] by {}
        assert forall|k: int|
            0 <= k < items.len() && #[trigger] items[k].score_sent implies r.contains(
                k as usize,
            ) by {
            if k < p.len() {
                assert(p[k] == items[k]);
                let j = choose|j: int| 0 <= j < prev.len() && prev[j] == k as usize;
                assert(r[j] == k as usize);
            } else {
                assert(r[r.len() - 1] == k as usize);
            }
        }
        assert forall|j: int| 0 <= j < r.len() implies (#[trigger] r[j]) < items.len()
            && items[r[j] as int].score_sent by {
            if j < prev.len() {
                assert(r[j] == prev[j]);
                assert(items[prev[j] as int] == p[prev[j] as int]);
            }
        }
    }
}

pub open spec fn position_of(items: Seq<QueuedItem>, id: (Seq<char>, Seq<char>)) -> Option<int> {
    position_from(items, id, 0)
}

proof fn lemma_position_from(items: Seq<QueuedItem>, id: (Seq<char>, Seq<char>), k: int)
    requires
        0 <= k <= items.len(),
    ensures
        match position_from(items, id, k) {
            Some(i) => k <= i < items.len() && items[i].id@ == id && forall|j: int|
                k <= j < i ==> items[j].id@ != id,
            None => forall|j: int| k <= j < items.len() ==> items[j].id@ != id,
        },
    decreases items.len() - k,
{
    if k < items.len() {
        lemma_position_from(items, id, k + 1);
    }
}

/// The items without those carrying the given id, in their order.
pub open spec fn without_id(items: Seq<QueuedItem>, id: (Seq<char>, Seq<char>)) -> Seq<QueuedItem>
    decreases items.len(),
{
    if items.len() == 0 {
        Seq::empty()
    } else if items.last().id@ == id {
        without_id(items.drop_last(), id)
    } else {
        without_id(items.drop_last(), id).push(items.last())
    }
}

/// `a` comes before `b` on the detail page: queued earlier, or queued at the
/// same instant and earlier in the queue.
pub open spec fn queued_before(items: Seq<QueuedItem>, a: int, b: int) -> bool {
    items[a].queued_at@ < items[b].queued_at@ || (items[a].queued_at@ == items[b].queued_at@ && a
        < b)
}

/// `p` lists every queue position once, oldest item first (ties in queue
/// order).
pub open spec fn oldest_first(items: Seq<QueuedItem>, p: Seq<usize>) -> bool {
    &&& p.len() == items.len()
    &&& forall|x: int| 0 <= x < p.len() ==> (#[trigger] p[x]) < items.len()
    &&& forall|x: int, y: int|
        0 <= x < y < p.len() ==> queued_before(items, #[trigger] p[x] as int, #[trigger] p[y] as int)
    &&& forall|k: int| 0 <= k < items.len() ==> #[trigger] p.contains(k as usize)
}

/// Rows for the stuck items, in the order `p`.
pub open spec fn stuck_rows(items: Seq<QueuedItem>, p: Seq<usize>, now: UtcTime) -> Seq<
    DetailRowView,
>
    decreases p.len(),
{
    if p.len() == 0 {
        Seq::empty()
    } else {
        let prev = stuck_rows(items, p.drop_last(), now);
        let it = items[p.last() as int];
        if item_stuck(it, now) {
            prev.push(DetailRowView::Stuck { id: it.id@, game_number: it.id.game_number@ })
        } else {
            prev
        }
    }
}

/// Rows for the score-pending items that are not stuck, in the order `p`.
pub open spec fn pending_rows(items: Seq<QueuedItem>, p: Seq<usize>, now: UtcTime) -> Seq<
    DetailRowView,
>
    decreases p.len(),
{
    if p.len() == 0 {
        Seq::empty()
    } else {
        let prev = pending_rows(items, p.drop_last(), now);
        let it = items[p.last() as int];
        if !it.score_sent && !item_stuck(it, now) {
            prev.push(
                DetailRowView::Pending {
                    id: it.id@,
                    game_number: it.id.game_number@,
                    attempts: it.attempts,
                },
            )
        } else {
            prev
        }
    }
}

/// Rows for the stats-pending items, in the order `p`.
pub open spec fn stats_rows(items: Seq<QueuedItem>, p: Seq<usize>) -> Seq<DetailRowView>
    decreases p.len(),
{
    if p.len() == 0 {
        Seq::empty()
    } else {
        let prev = stats_rows(items, p.drop_last());
        let it = items[p.last() as int];
        if it.score_sent {
            prev.push(DetailRowView::StatsPending { id: it.id@, game_number: it.id.game_number@ })
        } else {
            prev
        }
    }
}

/// Whole minutes since a success, from monotonic readings in nanoseconds
/// (zero when the reading runs backwards).
pub open spec fn minutes_since(submitted_at: u64, now_mono: u64) -> u32 {
    let elapsed: int = if now_mono >= submitted_at {
        now_mono - submitted_at
    } else {
        0
    };
    ((elapsed / NANOS_PER_SEC as int) / 60) as u32
}

/// Rows for the recent successes, in their order (newest first).
pub open spec fn recent_rows(recent: Seq<RecentSuccess>, now_mono: u64) -> Seq<DetailRowView> {
    Seq::new(
        recent.len(),
        |i: int|
            DetailRowView::RecentSuccess {
                game_number: recent[i].game_number@,
                submitted_mins_ago: minutes_since(recent[i].submitted_at, now_mono),
            },
    )
}

/// The portal manager's state.
#[derive(Debug)]
pub struct PortalManager {
    pub queue: QueueFile,
    pub check_in_flight: bool,
    /// The last token probe that reached the portal was rejected.
    pub token_known_problem: bool,
    /// The last token probe could not reach the portal at all.
    pub connection_problem: bool,
    pub indicator_state: PortalIndicatorState,
    /// The most recent successful submissions, newest first.
    pub recent_successes: Vec<RecentSuccess>,
}

impl PortalManager {
    /// The indicator the current state calls for at `now`: Red when the token
    /// is known bad, an item is stuck, or the portal is unreachable; else
    /// Yellow when a check is in flight or a score is still waiting; else
    /// Green.
    pub open spec fn computed_indicator(&self, now: UtcTime) -> PortalIndicatorState {
        let red = self.token_known_problem || any_stuck(self.queue.items@, now)
            || self.connection_problem;
        let yellow = self.check_in_flight || any_score_pending(self.queue.items@);
        PortalIndicatorState {
            health: if red {
                HealthState::Red
            } else if yellow {
                HealthState::Yellow
            } else {
                HealthState::Green
            },
            token_expired: self.token_known_problem,
        }
    }

    /// The detail-page rows for the order `p` of the queue.
    pub open spec fn rows_for(&self, p: Seq<usize>, now: UtcTime, now_mono: u64) -> Seq<
        DetailRowView,
    > {
        let items = self.queue.items@;
        let head: Seq<DetailRowView> = if self.token_known_problem {
            seq![DetailRowView::TokenExpired]
        } else {
            Seq::empty()
        };
        head + stuck_rows(items, p, now) + pending_rows(items, p, now) + stats_rows(items, p)
            + recent_rows(self.recent_successes@, now_mono)
    }

    /// A manager over a given queue and flags, with its indicator computed.
    pub fn new_for_test(
        queue: QueueFile,
        check_in_flight: bool,
        token_known_problem: bool,
        now: UtcTime,
    ) -> (r: PortalManager)
        ensures
            r.queue == queue,
            r.check_in_flight == check_in_flight,
            r.token_known_problem == token_known_problem,
            !r.connection_problem,
            r.recent_successes@.len() == 0,
            r.indicator_state == r.computed_indicator(now),
    {
        let mut m = PortalManager {
            queue,
            check_in_flight,
            token_known_problem,
            connection_problem: false,
            indicator_state: PortalIndicatorState::default(),
            recent_successes: Vec::new(),
        };
        m.recompute_indicator(now);
        m
    }

    /// A manager over a queue just read from disk.
    pub fn from_queue(queue: QueueFile, now: UtcTime) -> (r: PortalManager)
        ensures
            r.queue == queue,
            !r.check_in_flight,
            !r.token_known_problem,
            !r.connection_problem,
            r.recent_successes@.len() == 0,
            r.indicator_state == r.computed_indicator(now),
    {
        PortalManager::new_for_test(queue, false, false, now)
    }

    /// The manager used when no queue can be read or written: empty, with the
    /// token flagged so the indicator shows Red.
    pub fn new_degraded(now: UtcTime) -> (r: PortalManager)
        ensures
            r.queue.version == crate::portal_queue::CURRENT_VERSION,
            r.queue.items@.len() == 0,
            !r.check_in_flight,
            r.token_known_problem,
            !r.connection_problem,
            r.recent_successes@.len() == 0,
            r.indicator_state == (PortalIndicatorState {
                health: HealthState::Red,
                token_expired: true,
            }),
    {
        PortalManager::new_for_test(QueueFile::empty(), false, true, now)
    }

    pub fn indicator_state(&self) -> (r: PortalIndicatorState)
        ensures
            r == self.indicator_state,
    {
        self.indicator_state
    }

    fn has_stuck_items(&self, now: UtcTime) -> (r: bool)
        ensures
            r == any_stuck(self.queue.items@, now),
    {
        let mut i: usize = 0;
        while i < self.queue.items.len()
            invariant
                0 <= i <= self.queue.items@.len(),
                forall|j: int| 0 <= j < i ==> !item_stuck(#[trigger] self.queue.items@[j], now),
            decreases self.queue.items@.len() - i,
        {
            if is_item_stuck(&self.queue.items[i], now) {
                return true;
            }
            i = i + 1;
        }
        false
    }

    fn has_score_pending_items(&self) -> (r: bool)
        ensures
            r == any_score_pending(self.queue.items@),
    {
        let mut i: usize = 0;
        while i < self.queue.items.len()
            invariant
                0 <= i <= self.queue.items@.len(),
                forall|j: int| 0 <= j < i ==> (#[trigger] self.queue.items@[j]).score_sent,
            decreases self.queue.items@.len() - i,
        {
            if !self.queue.items[i].score_sent {
                return true;
            }
            i = i + 1;
        }
        false
    }

    /// Recomputes the cached indicator from the current state.
    pub fn recompute_indicator(&mut self, now: UtcTime)
        ensures
            final(self).queue == old(self).queue,
            final(self).check_in_flight == old(self).check_in_flight,
            final(self).token_known_problem == old(self).token_known_problem,
            final(self).connection_problem == old(self).connection_problem,
            final(self).recent_successes == old(self).recent_successes,
            final(self).indicator_state == old(self).computed_indicator(now),
    {
        let red = self.token_known_problem || self.has_stuck_items(now) || self.connection_problem;
        let health = if red {
            HealthState::Red
        } else if self.check_in_flight || self.has_score_pending_items() {
            HealthState::Yellow
        } else {
            HealthState::Green
        };
        self.indicator_state = PortalIndicatorState {
            health,
            token_expired: self.token_known_problem,
        };
    }

    /// Recomputes the indicator on a user-interface tick.
    pub fn ui_tick(&mut self, now: UtcTime)
        ensures
            final(self).queue == old(self).queue,
            final(self).check_in_flight == old(self).check_in_flight,
            final(self).token_known_problem == old(self).token_known_problem,
            final(self).connection_problem == old(self).connection_problem,
            final(self).recent_successes == old(self).recent_successes,
            final(self).indicator_state == old(self).computed_indicator(now),
    {
        self.recompute_indicator(now);
    }

    fn find_index(&self, id: &ItemId) -> (r: Option<usize>)
        ensures
            match r {
                Some(i) => position_of(self.queue.items@, id@) == Some(i as int) && i
                    < self.queue.items@.len() && self.queue.items@[i as int].id@ == id@,
                None => position_of(self.queue.items@, id@) is None,
            },
    {
        proof {
            lemma_position_from(self.queue.items@, id@, 0);
        }
        let mut i: usize = 0;
        while i < self.queue.items.len()
            invariant
                0 <= i <= self.queue.items@.len(),
                position_of(self.queue.items@, id@) == position_from(
                    self.queue.items@,
                    id@,
                    i as int,
                ),
            decreases self.queue.items@.len() - i,
        {
            if self.queue.items[i].id.same(id) {
                return Some(i);
            }
            i = i + 1;
        }
        None
    }

    /// The queued item with the given id, if any.
    pub fn find(&self, id: &ItemId) -> (r: Option<&QueuedItem>)
        ensures
            match position_of(self.queue.items@, id@) {
                Some(i) => r == Some(&self.queue.items@[i]),
                None => r is None,
            },
    {
        match self.find_index(id) {
            Some(i) => Some(&self.queue.items[i]),
            None => None,
        }
    }

    /// Whether the queued item with the given id is stuck at `now`; `false`
    /// for an unknown id.
    pub fn is_stuck(&self, id: &ItemId, now: UtcTime) -> (r: bool)
        ensures
            r == match position_of(self.queue.items@, id@) {
                Some(i) => item_stuck(self.queue.items@[i], now),
                None => false,
            },
    {
        match self.find_index(id) {
            Some(i) => is_item_stuck(&self.queue.items[i], now),
            None => false,
        }
    }

    /// Whether the queued item exists and only its stats are outstanding.
    pub fn is_stats_pending(&self, id: &ItemId) -> (r: bool)
        ensures
            r == match position_of(self.queue.items@, id@) {
                Some(i) => self.queue.items@[i].score_sent,
                None => false,
            },
    {
        match self.find_index(id) {
            Some(i) => self.queue.items[i].score_sent,
            None => false,
        }
    }

    /// Queues a finished game's result, as a fresh score-pending item queued
    /// at `now`. The caller then writes the queue; when that succeeds it
    /// recomputes the indicator and hands the queue to the background task.
    pub fn enqueue_game_end(
        &mut self,
        event_id: String,
        game_number: String,
        black_score: u8,
        white_score: u8,
        stats: String,
        now: UtcTime,
    )
        ensures
            final(self).queue.version == old(self).queue.version,
            final(self).queue.items@.len() == old(self).queue.items@.len() + 1,
            final(self).queue.items@.drop_last() == old(self).queue.items@,
            ({
                let it = final(self).queue.items@.last();
                &&& it.id.event_id@ == event_id@
                &&& it.id.game_number@ == game_number@
                &&& it.black_score == black_score
                &&& it.white_score == white_score
                &&& it.stats@ == stats@
                &&& it.queued_at == now
                &&& it.attempts == 0
                &&& it.last_attempt_at is None
                &&& !it.force
                &&& !it.score_sent
            }),
            final(self).check_in_flight == old(self).check_in_flight,
            final(self).token_known_problem == old(self).token_known_problem,
            final(self).connection_problem == old(self).connection_problem,
            final(self).indicator_state == old(self).indicator_state,
            final(self).recent_successes == old(self).recent_successes,
    {
        let item = QueuedItem {
            id: ItemId { event_id, game_number },
            black_score,
            white_score,
            stats,
            queued_at: now,
            attempts: 0,
            last_attempt_at: None,
            force: false,
            score_sent: false,
        };
        self.queue.items.push(item);
        assert(self.queue.items@.drop_last() =~= old(self).queue.items@);
    }

    /// The operator forces this game's result: the item is flagged to
    /// overwrite, its attempt history is cleared and its queue time restarts
    /// at `now`. Returns whether the id was queued. The caller writes the
    /// queue when it was, then recomputes the indicator and hands the queue
    /// to the background task.
    pub fn force_submit(&mut self, id: &ItemId, now: UtcTime) -> (found: bool)
        ensures
            found == (position_of(old(self).queue.items@, id@) is Some),
            match position_of(old(self).queue.items@, id@) {
                Some(i) => final(self).queue.items@ == old(self).queue.items@.update(
                    i,
                    QueuedItem {
                        force: true,
                        attempts: 0,
                        last_attempt_at: None,
                        queued_at: now,
                        ..old(self).queue.items@[i]
                    },
                ),
                None => final(self).queue.items@ == old(self).queue.items@,
            },
            final(self).queue.version == old(self).queue.version,
            final(self).check_in_flight == old(self).check_in_flight,
            final(self).token_known_problem == old(self).token_known_problem,
            final(self).connection_problem == old(self).connection_problem,
            final(self).indicator_state == old(self).indicator_state,
            final(self).recent_successes == old(self).recent_successes,
    {
        match self.find_index(id) {
            Some(i) => {
                let mut it = self.queue.items.remove(i);
                it.force = true;
                it.attempts = 0;
                it.last_attempt_at = None;
                it.queued_at = now;
                self.queue.items.insert(i, it);
                assert(self.queue.items@ =~= old(self).queue.items@.update(i as int, it));
                true
            },
            None => false,
        }
    }

    /// The operator retries everything: every item's attempt history is
    /// cleared and its queue time restarts at `now`, so nothing stays stuck.
    /// Nothing is flagged to overwrite. The caller then writes the queue,
    /// recomputes the indicator, hands the queue to the background task and
    /// sends one stats retry for each stats-pending item, at the positions
    /// that `stats_retry_positions` gives.
    pub fn retry_all(&mut self, now: UtcTime)
        ensures
            final(self).queue.version == old(self).queue.version,
            final(self).queue.items@.len() == old(self).queue.items@.len(),
            forall|i: int|
                0 <= i < old(self).queue.items@.len() ==> #[trigger] final(self).queue.items@[i]
                    == (QueuedItem {
                    attempts: 0,
                    last_attempt_at: None,
                    queued_at: now,
                    ..old(self).queue.items@[i]
                }),
            final(self).check_in_flight == old(self).check_in_flight,
            final(self).token_known_problem == old(self).token_known_problem,
            final(self).connection_problem == old(self).connection_problem,
            final(self).indicator_state == old(self).indicator_state,
            final(self).recent_successes == old(self).recent_successes,
    {
        let n = self.queue.items.len();
        let mut i: usize = 0;
        while i < n
            invariant
                0 <= i <= n,
                n == old(self).queue.items@.len(),
                self.queue.items@.len() == n,
                self.queue.version == old(self).queue.version,
                self.check_in_flight == old(self).check_in_flight,
                self.token_known_problem == old(self).token_known_problem,
                self.connection_problem == old(self).connection_problem,
                self.indicator_state == old(self).indicator_state,
                self.recent_successes == old(self).recent_successes,
                forall|k: int|
                    0 <= k < i ==> #[trigger] self.queue.items@[k] == (QueuedItem {
                        attempts: 0,
                        last_attempt_at: None,
                        queued_at: now,
                        ..old(self).queue.items@[k]
                    }),
                forall|k: int| i <= k < n ==> #[trigger] self.queue.items@[k] == old(self).queue.items@[k],
            decreases n - i,
        {
            let mut it = self.queue.items.remove(i);
            it.attempts = 0;
            it.last_attempt_at = None;
            it.queued_at = now;
            self.queue.items.insert(i, it);
            i = i + 1;
        }
    }

    /// The stats sweep that follows "retry all": the positions, in queue
    /// order, of the stats-pending items (score sent, stats outstanding),
    /// each of which gets one fresh stats attempt.
    pub fn stats_retry_positions(&self) -> (r: Vec<usize>)
        ensures
            r@ == stats_pending_positions(self.queue.items@),
    {
        let mut r: Vec<usize> = Vec::new();
        let mut i: usize = 0;
        while i < self.queue.items.len()
            invariant
                0 <= i <= self.queue.items@.len(),
                r@ == stats_pending_positions(self.queue.items@.take(i as int)),
            decreases self.queue.items@.len() - i,
        {
            assert(self.queue.items@.take(i as int + 1).drop_last() =~= self.queue.items@.take(
                i as int,
            ));
            if self.queue.items[i].score_sent {
                r.push(i);
            }
            i = i + 1;
        }
        assert(self.queue.items@.take(i as int) =~= self.queue.items@);
        r
    }

    /// The operator taps a young pending row: the item's last-attempt time is
    /// cleared so the background task tries it on its next tick. Returns
    /// whether the id was queued; when it was, the caller writes the queue
    /// and hands it to the background task.
    pub fn force_immediate_retry(&mut self, id: &ItemId) -> (found: bool)
        ensures
            found == (position_of(old(self).queue.items@, id@) is Some),
            match position_of(old(self).queue.items@, id@) {
                Some(i) => final(self).queue.items@ == old(self).queue.items@.update(
                    i,
                    QueuedItem { last_attempt_at: None, ..old(self).queue.items@[i] },
                ),
                None => final(self).queue.items@ == old(self).queue.items@,
            },
            final(self).queue.version == old(self).queue.version,
            final(self).check_in_flight == old(self).check_in_flight,
            final(self).token_known_problem == old(self).token_known_problem,
            final(self).connection_problem == old(self).connection_problem,
            final(self).indicator_state == old(self).indicator_state,
            final(self).recent_successes == old(self).recent_successes,
    {
        match self.find_index(id) {
            Some(i) => {
                let mut it = self.queue.items.remove(i);
                it.last_attempt_at = None;
                self.queue.items.insert(i, it);
                assert(self.queue.items@ =~= old(self).queue.items@.update(i as int, it));
                true
            },
            None => false,
        }
    }

    /// The operator discards a submission: every item with that id leaves the
    /// queue, the others keep their order. The caller then writes the queue,
    /// recomputes the indicator and hands the queue to the background task.
    pub fn discard(&mut self, id: &ItemId)
        ensures
            final(self).queue.items@ == without_id(old(self).queue.items@, id@),
            final(self).queue.version == old(self).queue.version,
            final(self).check_in_flight == old(self).check_in_flight,
            final(self).token_known_problem == old(self).token_known_problem,
            final(self).connection_problem == old(self).connection_problem,
            final(self).indicator_state == old(self).indicator_state,
            final(self).recent_successes == old(self).recent_successes,
    {
        remove_id(&mut self.queue.items, id);
    }

    /// A token probe reached the portal: the token flag follows the answer
    /// and any connection problem is cleared.
    pub fn on_token_status(&mut self, valid: bool, now: UtcTime)
        ensures
            final(self).token_known_problem == !valid,
            !final(self).connection_problem,
            final(self).queue == old(self).queue,
            final(self).check_in_flight == old(self).check_in_flight,
            final(self).recent_successes == old(self).recent_successes,
            final(self).indicator_state == (PortalManager {
                token_known_problem: !valid,
                connection_problem: false,
                ..*old(self)
            }).computed_indicator(now),
    {
        self.token_known_problem = !valid;
        self.connection_problem = false;
        self.recompute_indicator(now);
    }

    /// A token probe could not reach the portal: a connection problem is
    /// flagged; the token flag is left as it was.
    pub fn on_token_unreachable(&mut self, now: UtcTime)
        ensures
            final(self).connection_problem,
            final(self).token_known_problem == old(self).token_known_problem,
            final(self).queue == old(self).queue,
            final(self).check_in_flight == old(self).check_in_flight,
            final(self).recent_successes == old(self).recent_successes,
            final(self).indicator_state == (PortalManager {
                connection_problem: true,
                ..*old(self)
            }).computed_indicator(now),
    {
        self.connection_problem = true;
        self.recompute_indicator(now);
    }

    /// The operator logged in again: the token flag is cleared and every
    /// item's attempt history is cleared. The caller then writes the queue,
    /// recomputes the indicator and hands the queue to the background task.
    pub fn token_refreshed(&mut self)
        ensures
            !final(self).token_known_problem,
            final(self).queue.version == old(self).queue.version,
            final(self).queue.items@.len() == old(self).queue.items@.len(),
            forall|i: int|
                0 <= i < old(self).queue.items@.len() ==> #[trigger] final(self).queue.items@[i]
                    == (QueuedItem {
                    attempts: 0,
                    last_attempt_at: None,
                    ..old(self).queue.items@[i]
                }),
            final(self).check_in_flight == old(self).check_in_flight,
            final(self).connection_problem == old(self).connection_problem,
            final(self).indicator_state == old(self).indicator_state,
            final(self).recent_successes == old(self).recent_successes,
    {
        self.token_known_problem = false;
        let n = self.queue.items.len();
        let mut i: usize = 0;
        while i < n
            invariant
                0 <= i <= n,
                n == old(self).queue.items@.len(),
                self.queue.items@.len() == n,
                !self.token_known_problem,
                self.queue.version == old(self).queue.version,
                self.check_in_flight == old(self).check_in_flight,
                self.connection_problem == old(self).connection_problem,
                self.indicator_state == old(self).indicator_state,
                self.recent_successes == old(self).recent_successes,
                forall|k: int|
                    0 <= k < i ==> #[trigger] self.queue.items@[k] == (QueuedItem {
                        attempts: 0,
                        last_attempt_at: None,
                        ..old(self).queue.items@[k]
                    }),
                forall|k: int| i <= k < n ==> #[trigger] self.queue.items@[k] == old(self).queue.items@[k],
            decreases n - i,
        {
            let mut it = self.queue.items.remove(i);
            it.attempts = 0;
            it.last_attempt_at = None;
            self.queue.items.insert(i, it);
            i = i + 1;
        }
    }

    /// The background task reports that the score went up but the stats did
    /// not: the item becomes stats-pending. Returns whether anything changed
    /// (the id is queued and was still score-pending); when it did, the
    /// caller writes the queue, recomputes the indicator and hands the queue
    /// to the background task.
    pub fn on_score_sent_stats_pending(&mut self, id: &ItemId) -> (changed: bool)
        ensures
            changed == match position_of(old(self).queue.items@, id@) {
                Some(i) => !old(self).queue.items@[i].score_sent,
                None => false,
            },
            changed ==> final(self).queue.items@ == old(self).queue.items@.update(
                position_of(old(self).queue.items@, id@)->0,
                QueuedItem {
                    score_sent: true,
                    ..old(self).queue.items@[position_of(old(self).queue.items@, id@)->0]
                },
            ),
            !changed ==> final(self).queue.items@ == old(self).queue.items@,
            final(self).queue.version == old(self).queue.version,
            final(self).check_in_flight == old(self).check_in_flight,
            final(self).token_known_problem == old(self).token_known_problem,
            final(self).connection_problem == old(self).connection_problem,
            final(self).indicator_state == old(self).indicator_state,
            final(self).recent_successes == old(self).recent_successes,
    {
        match self.find_index(id) {
            Some(i) => {
                if self.queue.items[i].score_sent {
                    return false;
                }
                let mut it = self.queue.items.remove(i);
                it.score_sent = true;
                self.queue.items.insert(i, it);
                assert(self.queue.items@ =~= old(self).queue.items@.update(i as int, it));
                true
            },
            None => false,
        }
    }

    fn recent_contains(&self, id: &ItemId) -> (r: bool)
        ensures
            r == exists|i: int|
                0 <= i < self.recent_successes@.len() && (#[trigger] self.recent_successes@[i]).id@
                    == id@,
    {
        let mut i: usize = 0;
        while i < self.recent_successes.len()
            invariant
                0 <= i <= self.recent_successes@.len(),
                forall|j: int|
                    0 <= j < i ==> (#[trigger] self.recent_successes@[j]).id@ != id@,
            decreases self.recent_successes@.len() - i,
        {
            if self.recent_successes[i].id.same(id) {
                return true;
            }
            i = i + 1;
        }
        false
    }

    /// The background task reports a queued item accepted. Unless the id is
    /// already among the recent successes, or is not queued, the item leaves
    /// the queue and a recent success for it goes in front, the list keeping
    /// at most `RECENT_SUCCESS_CAP` entries. `now_mono` is the monotonic
    /// clock reading. Returns whether anything changed; when it did, the
    /// caller writes the queue, recomputes the indicator and hands the queue
    /// to the background task.
    pub fn on_item_resolved(&mut self, id: ItemId, now_mono: u64) -> (changed: bool)
        ensures
            changed == (!(exists|i: int|
                0 <= i < old(self).recent_successes@.len()
                    && (#[trigger] old(self).recent_successes@[i]).id@ == id@) && position_of(
                old(self).queue.items@,
                id@,
            ) is Some),
            changed ==> {
                let k = position_of(old(self).queue.items@, id@)->0;
                let old_recent = old(self).recent_successes@;
                let keep: int = if old_recent.len() < RECENT_SUCCESS_CAP - 1 {
                    old_recent.len() as int
                } else {
                    RECENT_SUCCESS_CAP - 1
                };
                &&& final(self).queue.items@ == without_id(old(self).queue.items@, id@)
                &&& final(self).recent_successes@.len() == keep + 1
                &&& final(self).recent_successes@[0].id@ == id@
                &&& final(self).recent_successes@[0].game_number@
                    == old(self).queue.items@[k].id.game_number@
                &&& final(self).recent_successes@[0].submitted_at == now_mono
                &&& final(self).recent_successes@.drop_first() == old_recent.take(keep)
            },
            !changed ==> final(self).queue.items@ == old(self).queue.items@
                && final(self).recent_successes@ == old(self).recent_successes@,
            final(self).recent_successes@.len() <= RECENT_SUCCESS_CAP || !changed,
            final(self).queue.version == old(self).queue.version,
            final(self).check_in_flight == old(self).check_in_flight,
            final(self).token_known_problem == old(self).token_known_problem,
            final(self).connection_problem == old(self).connection_problem,
            final(self).indicator_state == old(self).indicator_state,
    {
        if self.recent_contains(&id) {
            return false;
        }
        let k = match self.find_index(&id) {
            Some(k) => k,
            None => {
                return false;
            },
        };
        let game_number = self.queue.items[k].id.game_number.clone();
        remove_id(&mut self.queue.items, &id);
        let ghost old_recent = self.recent_successes@;
        self.recent_successes.insert(0, RecentSuccess { id, game_number, submitted_at: now_mono });
        assert(self.recent_successes@.drop_first() =~= old_recent.take(old_recent.len() as int));
        while self.recent_successes.len() > RECENT_SUCCESS_CAP
            invariant
                self.recent_successes@.len() >= 1,
                self.recent_successes@.len() == old_recent.len() + 1
                    || self.recent_successes@.len() >= RECENT_SUCCESS_CAP,
                self.recent_successes@.len() <= old_recent.len() + 1,
                self.recent_successes@.drop_first() == old_recent.take(
                    self.recent_successes@.len() - 1,
                ),
                self.recent_successes@[0].id@ == id@,
                self.recent_successes@[0].game_number@ == old(self).queue.items@[k as int].id.game_number@,
                self.recent_successes@[0].submitted_at == now_mono,
                self.queue.items@ == without_id(old(self).queue.items@, id@),
                self.queue.version == old(self).queue.version,
                self.check_in_flight == old(self).check_in_flight,
                self.token_known_problem == old(self).token_known_problem,
                self.connection_problem == old(self).connection_problem,
                self.indicator_state == old(self).indicator_state,
                k < old(self).queue.items@.len(),
                position_of(old(self).queue.items@, id@) == Some(k as int),
                old_recent == old(self).recent_successes@,
            decreases self.recent_successes@.len(),
        {
            self.recent_successes.pop();
            assert(self.recent_successes@.drop_first() =~= old_recent.take(
                self.recent_successes@.len() - 1,
            ));
        }
        true
    }

    /// The rows of the portal detail page: the token banner if the token is
    /// known bad, then the stuck items, then the other score-pending items,
    /// then the stats-pending items, each group oldest first (ties in queue
    /// order), then the recent successes newest first with the whole minutes
    /// since each.
    pub fn detail_rows(&self, now: UtcTime, now_mono: u64) -> (rows: Vec<DetailRow>)
        ensures
            exists|p: Seq<usize>|
                oldest_first(self.queue.items@, p) && row_views(rows@)
                    == self.rows_for(p, now, now_mono),
    {
        let items = &self.queue.items;
        let order = oldest_first_order(items);
        let ghost p = order@;
        let mut out: Vec<DetailRow> = Vec::new();
        if self.token_known_problem {
            out.push(DetailRow::TokenExpired);
        }
        let ghost head = row_views(out@);
        let mut i: usize = 0;
        while i < order.len()
            invariant
                0 <= i <= order@.len(),
                order@ == p,
                oldest_first(items@, p),
                row_views(out@) == head + stuck_rows(items@, p.take(i as int), now),
            decreases order@.len() - i,
        {
            let ghost prev = out@;
            let idx = order[i];
            let it = &items[idx];
            proof {
                assert(p.take(i + 1).drop_last() =~= p.take(i as int));
                assert(p.take(i + 1).last() == p[i as int]);
                assert(idx == p[i as int]);
            }
            if is_item_stuck(it, now) {
                let row = DetailRow::Stuck { id: it.id.duplicate(), game_number: it.id.game_number.clone() };
                out.push(row);
                proof {
                    assert(row_views(out@) =~= row_views(prev).push(row@));
                }
            }
            i = i + 1;
            assert(row_views(out@) =~= head + stuck_rows(items@, p.take(i as int), now));
        }
        assert(p.take(order@.len() as int) =~= p);
        let ghost head2 = row_views(out@);
        i = 0;
        while i < order.len()
            invariant
                0 <= i <= order@.len(),
                order@ == p,
                oldest_first(items@, p),
                row_views(out@) == head2 + pending_rows(items@, p.take(i as int), now),
            decreases order@.len() - i,
        {
            let ghost prev = out@;
            let idx = order[i];
            let it = &items[idx];
            proof {
                assert(p.take(i + 1).drop_last() =~= p.take(i as int));
                assert(p.take(i + 1).last() == p[i as int]);
                assert(idx == p[i as int]);
            }
            if !it.score_sent && !is_item_stuck(it, now) {
                let row = DetailRow::Pending {
                    id: it.id.duplicate(),
                    game_number: it.id.game_number.clone(),
                    attempts: it.attempts,
                };
                out.push(row);
                proof {
                    assert(row_views(out@) =~= row_views(prev).push(row@));
                }
            }
            i = i + 1;
            assert(row_views(out@) =~= head2 + pending_rows(items@, p.take(i as int), now));
        }
        let ghost head3 = row_views(out@);
        i = 0;
        while i < order.len()
            invariant
                0 <= i <= order@.len(),
                order@ == p,
                oldest_first(items@, p),
                row_views(out@) == head3 + stats_rows(items@, p.take(i as int)),
            decreases order@.len() - i,
        {
            let ghost prev = out@;
            let idx = order[i];
            let it = &items[idx];
            proof {
                assert(p.take(i + 1).drop_last() =~= p.take(i as int));
                assert(p.take(i + 1).last() == p[i as int]);
                assert(idx == p[i as int]);
            }
            if it.score_sent {
                let row = DetailRow::StatsPending {
                    id: it.id.duplicate(),
                    game_number: it.id.game_number.clone(),
                };
                out.push(row);
                proof {
                    assert(row_views(out@) =~= row_views(prev).push(row@));
                }
            }
            i = i + 1;
            assert(row_views(out@) =~= head3 + stats_rows(items@, p.take(i as int)));
        }
        let ghost head4 = row_views(out@);
        let mut j: usize = 0;
        while j < self.recent_successes.len()
            invariant
                0 <= j <= self.recent_successes@.len(),
                row_views(out@) == head4 + recent_rows(
                    self.recent_successes@,
                    now_mono,
                ).take(j as int),
            decreases self.recent_successes@.len() - j,
        {
            let rs = &self.recent_successes[j];
            let elapsed: u64 = if now_mono >= rs.submitted_at {
                now_mono - rs.submitted_at
            } else {
                0
            };
            let mins: u64 = elapsed / 1_000_000_000 / 60;
            let ghost prev = out@;
            let row = DetailRow::RecentSuccess {
                game_number: rs.game_number.clone(),
                submitted_mins_ago: mins as u32,
            };
            out.push(row);
            proof {
                assert(row_views(out@) =~= row_views(prev).push(row@));
                assert(recent_rows(self.recent_successes@, now_mono).take(j + 1) =~= recent_rows(
                    self.recent_successes@,
                    now_mono,
                ).take(j as int).push(row@));
            }
            j = j + 1;
            assert(row_views(out@) =~= head4 + recent_rows(
                self.recent_successes@,
                now_mono,
            ).take(j as int));
        }
        assert(recent_rows(self.recent_successes@, now_mono).take(
            self.recent_successes@.len() as int,
        ) =~= recent_rows(self.recent_successes@, now_mono));
        assert(row_views(out@) =~= self.rows_for(p, now, now_mono));
        out
    }
}

/// Removes every item with the given id, keeping the others in order.
fn remove_id(items: &mut Vec<QueuedItem>, id: &ItemId)
    ensures
        final(items)@ == without_id(old(items)@, id@),
{
    let ghost orig = items@;
    let ghost mut k: int = 0;
    let mut i: usize = 0;
    assert(orig.take(0) =~= Seq::<QueuedItem>::empty());
    assert(orig.skip(0) =~= orig);
    while i < items.len()
        invariant
            0 <= k <= orig.len(),
            i == without_id(orig.take(k), id@).len(),
            items@ == without_id(orig.take(k), id@) + orig.skip(k),
        decreases items@.len() - i,
    {
        proof {
            assert(orig.take(k + 1).drop_last() =~= orig.take(k));
            assert(orig.take(k + 1).last() == orig[k]);
            assert(items@[i as int] == orig[k]);
        }
        if items[i].id.same(id) {
            items.remove(i);
            proof {
                assert(items@ =~= without_id(orig.take(k + 1), id@) + orig.skip(k + 1));
            }
        } else {
            i = i + 1;
            proof {
                assert(items@ =~= without_id(orig.take(k + 1), id@) + orig.skip(k + 1));
            }
        }
        proof {
            k = k + 1;
        }
    }
    proof {
        assert(orig.skip(k).len() == 0);
        assert(k == orig.len());
        assert(orig.take(k) =~= orig);
        assert(items@ =~= without_id(orig, id@));
    }
}

/// The queue positions, oldest item first (ties in queue order).
fn oldest_first_order(items: &Vec<QueuedItem>) -> (r: Vec<usize>)
    ensures
        oldest_first(items@, r@),
{
    let mut order: Vec<usize> = Vec::new();
    let mut i: usize = 0;
    while i < items.len()
        invariant
            0 <= i <= items@.len(),
            order@.len() == i,
            forall|x: int| 0 <= x < order@.len() ==> (#[trigger] order@[x]) < i,
            forall|x: int, y: int|
                0 <= x < y < order@.len() ==> queued_before(
                    items@,
                    #[trigger] order@[x] as int,
                    #[trigger] order@[y] as int,
                ),
            forall|k: int| 0 <= k < i ==> #[trigger] order@.contains(k as usize),
        decreases items@.len() - i,
    {
        let key = items[i].queued_at.unix_nanos();
        let mut j: usize = 0;
        while j < order.len() && items[order[j]].queued_at.unix_nanos() <= key
            invariant
                0 <= j <= order@.len(),
                forall|x: int| 0 <= x < order@.len() ==> (#[trigger] order@[x]) < i,
                i < items@.len(),
                key == items@[i as int].queued_at@,
                forall|x: int| 0 <= x < j ==> items@[#[trigger] order@[x] as int].queued_at@ <= key,
            decreases order@.len() - j,
        {
            j = j + 1;
        }
        let ghost before = order@;
        order.insert(j, i);
        proof {
            assert(order@ == before.insert(j as int, i));
            assert forall|x: int, y: int|
                0 <= x < y < order@.len() implies queued_before(
                items@,
                #[trigger] order@[x] as int,
                #[trigger] order@[y] as int,
            ) by {
                if y < j {
                    assert(order@[x] == before[x] && order@[y] == before[y]);
                } else if y == j {
                    assert(order@[x] == before[x]);
                } else if x == j {
                    assert(order@[y] == before[y - 1]);
                    // every entry from position j on is queued strictly later
                    assert(items@[before[j as int] as int].queued_at@ > key);
                    if y - 1 > j {
                        assert(queued_before(items@, before[j as int] as int, before[y - 1] as int));
                    }
                    assert(items@[before[y - 1] as int].queued_at@ > key);
                } else if x < j {
                    assert(order@[x] == before[x] && order@[y] == before[y - 1]);
                } else {
                    assert(order@[x] == before[x - 1] && order@[y] == before[y - 1]);
                }
            }
            assert forall|k: int| 0 <= k < i + 1 implies #[trigger] order@.contains(k as usize) by {
                if k == i {
                    assert(order@[j as int] == k);
                } else {
                    assert(before.contains(k as usize));
                    let x0 = choose|x: int| 0 <= x < before.len() && before[x] == k as usize;
                    if x0 < j {
                        assert(order@[x0] == k);
                    } else {
                        assert(order@[x0 + 1] == k);
                    }
                }
            }
        }
        i = i + 1;
    }
    order
}


proof fn lemma_without_id_has_none(items: Seq<QueuedItem>, id: (Seq<char>, Seq<char>))
    ensures
        forall|j: int|
            0 <= j < without_id(items, id).len() ==> (#[trigger] without_id(items, id)[j]).id@
                != id,
    decreases items.len(),
{
    if items.len() > 0 {
        lemma_without_id_has_none(items.drop_last(), id);
    }
}

proof fn lemma_whole_minutes(e: int)
    requires
        0 <= e <= u64::MAX,
    ensures
        (e / NANOS_PER_SEC as int) / 60 == e / 60_000_000_000,
        (e / 60_000_000_000) * 60_000_000_000 <= e < (e / 60_000_000_000 + 1) * 60_000_000_000,
        e / 60_000_000_000 <= u32::MAX,
{
    vstd::arithmetic::div_mod::lemma_div_denominator(e, 1_000_000_000, 60);
    vstd::arithmetic::div_mod::lemma_fundamental_div_mod(e, 60_000_000_000);
    vstd::arithmetic::div_mod::lemma_mod_bound(e, 60_000_000_000);
    let q = e / 60_000_000_000;
    assert(q <= u32::MAX) by (nonlinear_arith)
        requires
            q * 60_000_000_000 <= e,
            e <= u64::MAX,
            60_000_000_000 * q + e % 60_000_000_000 == e,
            0 <= e % 60_000_000_000,
    ;
}

/// The row a queued item gets in the stuck group, if it is stuck.
pub open spec fn stuck_row(it: QueuedItem, now: UtcTime) -> Option<DetailRowView> {
    if !it.score_sent && now@ - it.queued_at@ >= 1_800_000_000_000 {
        Some(DetailRowView::Stuck { id: it.id@, game_number: it.id.game_number@ })
    } else {
        None
    }
}

/// The row a queued item gets in the score-pending group, if its score is
/// still to be sent and it is not stuck.
pub open spec fn pending_row(it: QueuedItem, now: UtcTime) -> Option<DetailRowView> {
    if !it.score_sent && now@ - it.queued_at@ < 1_800_000_000_000 {
        Some(
            DetailRowView::Pending {
                id: it.id@,
                game_number: it.id.game_number@,
                attempts: it.attempts,
            },
        )
    } else {
        None
    }
}

/// The row a queued item gets in the stats-pending group, if its score has
/// been sent.
pub open spec fn stats_row(it: QueuedItem) -> Option<DetailRowView> {
    if it.score_sent {
        Some(DetailRowView::StatsPending { id: it.id@, game_number: it.id.game_number@ })
    } else {
        None
    }
}

/// Each group of the detail page lists, in the page's order of the items,
/// exactly the items that belong to it: the stuck ones (score unsent for
/// thirty minutes or more), then the other score-pending ones with their
/// attempt counts, then the stats-pending ones; each row names the item and
/// its game.
pub proof fn lemma_detail_groups(items: Seq<QueuedItem>, p: Seq<usize>, now: UtcTime)
    ensures
        stuck_rows(items, p, now) == p.filter_map(|x: usize| stuck_row(items[x as int], now)),
        pending_rows(items, p, now) == p.filter_map(|x: usize| pending_row(items[x as int], now)),
        stats_rows(items, p) == p.filter_map(|x: usize| stats_row(items[x as int])),
    decreases p.len(),
{
    if p.len() > 0 {
        lemma_detail_groups(items, p.drop_last(), now);
        let it = items[p.last() as int];
        match stuck_row(it, now) {
            Some(r) => {
                assert(stuck_rows(items, p.drop_last(), now).push(r) =~= stuck_rows(
                    items,
                    p.drop_last(),
                    now,
                ) + seq![r]);
            },
            None => {},
        }
        match pending_row(it, now) {
            Some(r) => {
                assert(pending_rows(items, p.drop_last(), now).push(r) =~= pending_rows(
                    items,
                    p.drop_last(),
                    now,
                ) + seq![r]);
            },
            None => {},
        }
        match stats_row(it) {
            Some(r) => {
                assert(stats_rows(items, p.drop_last()).push(r) =~= stats_rows(
                    items,
                    p.drop_last(),
                ) + seq![r]);
            },
            None => {},
        }
    }
}

/// The indicator's colour: Red when the login is known to be rejected, the
/// portal cannot be reached, or some score has waited thirty minutes or more
/// without being sent; otherwise Yellow while a check is in flight or any
/// score is still to be sent; otherwise Green. It flags an expired token
/// exactly when the login is known to be rejected.
pub proof fn lemma_indicator_colours(m: PortalManager, now: UtcTime)
    ensures
        ({
            let red = m.token_known_problem || m.connection_problem || exists|i: int|
                0 <= i < m.queue.items@.len() && !(#[trigger] m.queue.items@[i]).score_sent && now@
                    - m.queue.items@[i].queued_at@ >= 1_800_000_000_000;
            let yellow = m.check_in_flight || exists|i: int|
                0 <= i < m.queue.items@.len() && !(#[trigger] m.queue.items@[i]).score_sent;
            &&& red ==> m.computed_indicator(now).health == HealthState::Red
            &&& !red && yellow ==> m.computed_indicator(now).health == HealthState::Yellow
            &&& !red && !yellow ==> m.computed_indicator(now).health == HealthState::Green
        }),
        m.computed_indicator(now).token_expired == m.token_known_problem,
{
}

/// Whether `row` is a recent-success row for `rs` that reports the whole
/// minutes since its submission at `now_mono`: the largest number of full
/// minutes that have passed (zero if the clock reads earlier than the
/// submission).
pub open spec fn reports_whole_minutes(row: DetailRowView, rs: RecentSuccess, now_mono: u64) -> bool {
    match row {
        DetailRowView::RecentSuccess { game_number, submitted_mins_ago: m } => {
            &&& game_number == rs.game_number@
            &&& now_mono >= rs.submitted_at ==> m * 60_000_000_000 <= now_mono - rs.submitted_at
                < (m + 1) * 60_000_000_000
            &&& now_mono < rs.submitted_at ==> m == 0
        },
        _ => false,
    }
}

/// The recent successes close the detail page, one row each in their order
/// (newest first), each reporting its game and the whole minutes since it
/// was submitted.
pub proof fn lemma_recent_rows_report_whole_minutes(recent: Seq<RecentSuccess>, now_mono: u64)
    ensures
        recent_rows(recent, now_mono).len() == recent.len(),
        forall|i: int|
            0 <= i < recent.len() ==> reports_whole_minutes(
                #[trigger] recent_rows(recent, now_mono)[i],
                recent[i],
                now_mono,
            ),
{
    assert forall|i: int| 0 <= i < recent.len() implies reports_whole_minutes(
        #[trigger] recent_rows(recent, now_mono)[i],
        recent[i],
        now_mono,
    ) by {
        let sub = recent[i].submitted_at;
        let e: int = if now_mono >= sub {
            now_mono - sub
        } else {
            0
        };
        lemma_whole_minutes(e);
    }
}

/// How many of the detail page's item groups (stuck, score-pending, stats
/// pending) an item belongs to at `now`.
pub open spec fn row_groups(it: QueuedItem, now: UtcTime) -> int {
    (if item_stuck(it, now) {
        1int
    } else {
        0
    }) + (if !it.score_sent && !item_stuck(it, now) {
        1int
    } else {
        0
    }) + (if it.score_sent {
        1int
    } else {
        0
    })
}

/// Each queued item has exactly one row on the detail page: every item
/// belongs to exactly one of the stuck, score-pending and stats-pending
/// groups, and the three groups' rows, taken over an order that lists each
/// queue position once, number exactly as many as the queued items.
pub proof fn lemma_each_item_has_one_row(items: Seq<QueuedItem>, p: Seq<usize>, now: UtcTime)
    requires
        oldest_first(items, p),
    ensures
        forall|k: int| 0 <= k < items.len() ==> row_groups(#[trigger] items[k], now) == 1,
        stuck_rows(items, p, now).len() + pending_rows(items, p, now).len() + stats_rows(
            items,
            p,
        ).len() == items.len(),
{
    lemma_group_rows_count(items, p, now);
}

proof fn lemma_group_rows_count(items: Seq<QueuedItem>, p: Seq<usize>, now: UtcTime)
    requires
        forall|x: int| 0 <= x < p.len() ==> (#[trigger] p[x]) < items.len(),
    ensures
        stuck_rows(items, p, now).len() + pending_rows(items, p, now).len() + stats_rows(
            items,
            p,
        ).len() == p.len(),
    decreases p.len(),
{
    if p.len() > 0 {
        let q = p.drop_last();
        assert forall|x: int| 0 <= x < q.len() implies (#[trigger] q[x]) < items.len() by {
            assert(q[x] == p[x]);
        }
        lemma_group_rows_count(items, q, now);
    }
}

/// Once an item is discarded, looking its id up finds nothing: `find`
/// returns `None` and `is_stuck` reports not stuck.
pub proof fn lemma_discarded_item_is_gone(items: Seq<QueuedItem>, id: (Seq<char>, Seq<char>))
    ensures
        position_of(without_id(items, id), id) is None,
{
    lemma_without_id_has_none(items, id);
    lemma_position_from(without_id(items, id), id, 0);
}

/// An item queued (or re-queued, by forcing it or retrying all) at `now` is
/// not stuck at `now`; so right after "retry all" no item is stuck.
pub proof fn lemma_requeued_items_are_not_stuck(items: Seq<QueuedItem>, now: UtcTime)
    requires
        forall|i: int| 0 <= i < items.len() ==> (#[trigger] items[i]).queued_at == now,
    ensures
        !any_stuck(items, now),
{
}

} // verus!
