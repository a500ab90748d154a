use refbox::portal_manager::{DetailRow, HealthState, ItemId, PortalManager, RECENT_SUCCESS_CAP};
use refbox::portal_queue::{QueueFile, QueuedItem};
use refbox::utc_time::UtcTime;

const NOW: i64 = 1_750_000_000;

fn now() -> UtcTime {
    UtcTime::from_unix_secs(NOW)
}

fn minutes_ago(m: i64) -> UtcTime {
    UtcTime::from_unix_secs(NOW - 60 * m)
}

fn id(game: &str) -> ItemId {
    ItemId {
        event_id: "e".into(),
        game_number: game.into(),
    }
}

fn mk_young_item() -> QueuedItem {
    QueuedItem {
        id: id("G1"),
        black_score: 0,
        white_score: 0,
        stats: "{}".into(),
        queued_at: now(),
        attempts: 0,
        last_attempt_at: None,
        force: false,
        score_sent: false,
    }
}

fn mk_stuck_item() -> QueuedItem {
    let mut it = mk_young_item();
    it.queued_at = minutes_ago(31);
    it
}

fn empty_manager() -> PortalManager {
    PortalManager::from_queue(QueueFile::empty(), now())
}

#[test]
fn empty_queue_and_no_problems_is_green() {
    let m = PortalManager::new_for_test(QueueFile::empty(), false, false, now());
    assert_eq!(m.indicator_state().health, HealthState::Green);
}

#[test]
fn young_pending_item_is_yellow() {
    let q = QueueFile {
        version: 1,
        items: vec![mk_young_item()],
    };
    let m = PortalManager::new_for_test(q, false, false, now());
    assert_eq!(m.indicator_state().health, HealthState::Yellow);
}

#[test]
fn stuck_item_is_red() {
    let q = QueueFile {
        version: 1,
        items: vec![mk_stuck_item()],
    };
    let m = PortalManager::new_for_test(q, false, false, now());
    assert_eq!(m.indicator_state().health, HealthState::Red);
}

#[test]
fn token_known_problem_is_red() {
    let m = PortalManager::new_for_test(QueueFile::empty(), false, true, now());
    assert_eq!(m.indicator_state().health, HealthState::Red);
}

#[test]
fn token_known_problem_sets_token_expired() {
    let m = PortalManager::new_for_test(QueueFile::empty(), false, true, now());
    assert!(m.indicator_state().token_expired);
}

#[test]
fn stuck_item_red_is_not_token_expired() {
    let q = QueueFile {
        version: 1,
        items: vec![mk_stuck_item()],
    };
    let m = PortalManager::new_for_test(q, false, false, now());
    assert_eq!(m.indicator_state().health, HealthState::Red);
    assert!(!m.indicator_state().token_expired);
}

#[test]
fn healthy_connection_is_not_token_expired() {
    let m = PortalManager::new_for_test(QueueFile::empty(), false, false, now());
    assert!(!m.indicator_state().token_expired);
}

#[test]
fn connection_problem_is_red_but_not_token_expired() {
    let mut m = PortalManager::new_for_test(QueueFile::empty(), false, false, now());
    m.on_token_unreachable(now());
    assert_eq!(m.indicator_state().health, HealthState::Red);
    assert!(!m.indicator_state().token_expired);
}

#[test]
fn reaching_the_portal_clears_a_prior_connection_problem() {
    let mut m = PortalManager::new_for_test(QueueFile::empty(), false, false, now());
    m.on_token_unreachable(now());
    assert_eq!(m.indicator_state().health, HealthState::Red);
    m.on_token_status(true, now());
    assert_eq!(m.indicator_state().health, HealthState::Green);
    assert!(!m.indicator_state().token_expired);
}

#[test]
fn server_rejection_after_outage_reports_token_expired() {
    let mut m = PortalManager::new_for_test(QueueFile::empty(), false, false, now());
    m.on_token_unreachable(now());
    m.on_token_status(false, now());
    assert_eq!(m.indicator_state().health, HealthState::Red);
    assert!(m.indicator_state().token_expired);
}

#[test]
fn health_check_in_flight_is_yellow() {
    let m = PortalManager::new_for_test(QueueFile::empty(), true, false, now());
    assert_eq!(m.indicator_state().health, HealthState::Yellow);
}

#[test]
fn new_degraded_indicator_has_token_known_problem_and_no_spawned_task() {
    let m = PortalManager::new_degraded(now());
    assert_eq!(m.indicator_state().health, HealthState::Red);
    assert!(m.indicator_state().token_expired);
    assert!(m.queue.items.is_empty());
}

#[test]
fn enqueue_game_end_appends_item_and_turns_yellow() {
    let mut m = empty_manager();
    assert_eq!(m.indicator_state().health, HealthState::Green);
    m.enqueue_game_end("event".into(), "G1".into(), 3, 2, "{}".into(), now());
    m.recompute_indicator(now());
    assert_eq!(m.indicator_state().health, HealthState::Yellow);
    assert_eq!(m.queue.items.len(), 1);
    assert_eq!(m.queue.items[0].black_score, 3);
    assert_eq!(m.queue.items[0].white_score, 2);
}

#[test]
fn discard_removes_item_and_returns_to_green() {
    let mut m = empty_manager();
    m.enqueue_game_end("event".into(), "G1".into(), 0, 0, "{}".into(), now());
    let item_id = m.queue.items[0].id.clone();
    m.discard(&item_id);
    m.recompute_indicator(now());
    assert_eq!(m.indicator_state().health, HealthState::Green);
    assert!(m.queue.items.is_empty());
    assert!(m.find(&item_id).is_none());
    assert!(!m.is_stuck(&item_id, now()));
}

#[test]
fn force_submit_flags_force_and_resets_attempt_counters() {
    let mut m = empty_manager();
    m.enqueue_game_end("event".into(), "G1".into(), 0, 0, "{}".into(), now());
    let item_id = m.queue.items[0].id.clone();
    m.queue.items[0].attempts = 7;
    m.queue.items[0].last_attempt_at = Some(now());
    assert!(m.force_submit(&item_id, now()));
    assert!(m.queue.items[0].force);
    assert_eq!(m.queue.items[0].attempts, 0);
    assert!(m.queue.items[0].last_attempt_at.is_none());
}

#[test]
fn retry_all_unsticks_and_resets_every_item_without_forcing() {
    let mut m = empty_manager();
    m.enqueue_game_end("event".into(), "G_STUCK".into(), 0, 0, "{}".into(), now());
    m.enqueue_game_end("event".into(), "G_YOUNG".into(), 1, 0, "{}".into(), now());
    m.queue.items[0].queued_at = minutes_ago(31);
    m.queue.items[0].attempts = 5;
    m.queue.items[0].last_attempt_at = Some(minutes_ago(31));
    m.queue.items[1].attempts = 2;
    m.queue.items[1].last_attempt_at = Some(now());
    m.recompute_indicator(now());
    assert_eq!(m.indicator_state().health, HealthState::Red);

    m.retry_all(now());
    for item in &m.queue.items {
        assert_eq!(item.attempts, 0);
        assert!(item.last_attempt_at.is_none());
        assert!(!item.force);
    }
    m.recompute_indicator(now());
    assert_eq!(m.indicator_state().health, HealthState::Yellow);
}

#[test]
fn detail_rows_orders_token_then_stuck_then_pending_oldest_first() {
    let mut m = empty_manager();
    m.enqueue_game_end("e".into(), "G3".into(), 3, 2, "{}".into(), now());
    m.queue.items[0].queued_at = minutes_ago(40);
    m.enqueue_game_end("e".into(), "G1".into(), 0, 0, "{}".into(), now());
    m.queue.items[1].queued_at = minutes_ago(5);
    m.enqueue_game_end("e".into(), "G2".into(), 0, 0, "{}".into(), now());
    m.queue.items[2].queued_at = minutes_ago(2);
    m.token_known_problem = true;

    let rows = m.detail_rows(now(), 0);
    assert!(matches!(rows[0], DetailRow::TokenExpired));
    assert!(matches!(rows[1], DetailRow::Stuck { ref game_number, .. } if game_number == "G3"));
    assert!(matches!(rows[2], DetailRow::Pending { ref game_number, .. } if game_number == "G1"));
    assert!(matches!(rows[3], DetailRow::Pending { ref game_number, .. } if game_number == "G2"));
    assert_eq!(rows.len(), 4);
}

#[test]
fn on_item_resolved_removes_queue_item_and_adds_recent_success() {
    let mut m = empty_manager();
    m.enqueue_game_end("event".into(), "G1".into(), 3, 2, "{}".into(), now());
    let item_id = m.queue.items[0].id.clone();
    assert!(m.on_item_resolved(item_id.clone(), 0));
    assert!(m.queue.items.is_empty());
    assert_eq!(m.recent_successes.len(), 1);
    assert_eq!(m.recent_successes[0].id, item_id);
    assert_eq!(m.recent_successes[0].game_number, "G1");
}

#[test]
fn recent_successes_caps_at_five_and_evicts_oldest() {
    let mut m = empty_manager();
    for n in 1..=6u32 {
        let game = format!("G{n}");
        m.enqueue_game_end("e".into(), game, 0, 0, "{}".into(), now());
        let item_id = m.queue.items[0].id.clone();
        m.on_item_resolved(item_id, u64::from(n));
    }
    assert_eq!(m.recent_successes.len(), RECENT_SUCCESS_CAP);
    assert_eq!(m.recent_successes.first().unwrap().game_number, "G6");
    assert_eq!(m.recent_successes.last().unwrap().game_number, "G2");
    assert!(!m.recent_successes.iter().any(|rs| rs.game_number == "G1"));
}

#[test]
fn on_item_resolved_with_unknown_id_is_noop_and_does_not_duplicate() {
    let mut m = empty_manager();
    m.enqueue_game_end("event".into(), "GA".into(), 1, 0, "{}".into(), now());
    let id_a = m.queue.items[0].id.clone();
    assert!(m.on_item_resolved(id_a.clone(), 0));
    assert!(m.queue.items.is_empty());
    assert_eq!(m.recent_successes.len(), 1);
    assert!(!m.on_item_resolved(id_a.clone(), 0));
    assert_eq!(m.recent_successes.len(), 1);
    let id_b = ItemId {
        event_id: "event".into(),
        game_number: "GB-never-queued".into(),
    };
    assert!(!m.on_item_resolved(id_b, 0));
    assert!(m.queue.items.is_empty());
    assert_eq!(m.recent_successes.len(), 1);
    assert_eq!(m.recent_successes[0].id, id_a);
}

#[test]
fn detail_rows_appends_recent_successes_newest_first() {
    let mut m = empty_manager();
    m.enqueue_game_end("e".into(), "G1".into(), 0, 0, "{}".into(), now());
    let id1 = m.queue.items[0].id.clone();
    m.on_item_resolved(id1, 0);
    m.enqueue_game_end("e".into(), "G2".into(), 0, 0, "{}".into(), now());
    let id2 = m.queue.items[0].id.clone();
    m.on_item_resolved(id2, 0);

    let rows = m.detail_rows(now(), 0);
    assert_eq!(rows.len(), 2);
    assert!(matches!(&rows[0], DetailRow::RecentSuccess { game_number, .. } if game_number == "G2"));
    assert!(matches!(&rows[1], DetailRow::RecentSuccess { game_number, .. } if game_number == "G1"));
}

#[test]
fn is_stuck_classifies_items_and_is_none_safe_for_unknown_ids() {
    let mut m = empty_manager();
    m.enqueue_game_end("e".into(), "G_STUCK".into(), 0, 0, "{}".into(), now());
    m.queue.items[0].queued_at = minutes_ago(40);
    let stuck_id = m.queue.items[0].id.clone();
    m.enqueue_game_end("e".into(), "G_YOUNG".into(), 0, 0, "{}".into(), now());
    m.queue.items[1].queued_at = minutes_ago(5);
    let young_id = m.queue.items[1].id.clone();

    assert!(m.is_stuck(&stuck_id, now()));
    assert!(!m.is_stuck(&young_id, now()));
    assert!(!m.is_stuck(&id("G_NEVER_QUEUED"), now()));
}

#[test]
fn find_returns_item_or_none() {
    let mut m = empty_manager();
    m.enqueue_game_end("e".into(), "G1".into(), 3, 2, "{}".into(), now());
    let found = m.find(&id("G1")).expect("queued item is found");
    assert_eq!(found.black_score, 3);
    assert!(m.find(&id("G9")).is_none());
}

#[test]
fn force_immediate_retry_clears_last_attempt_at_and_is_noop_for_unknown() {
    let mut m = empty_manager();
    m.enqueue_game_end("e".into(), "G1".into(), 0, 0, "{}".into(), now());
    m.queue.items[0].attempts = 3;
    m.queue.items[0].last_attempt_at = Some(now());
    assert!(m.force_immediate_retry(&id("G1")));
    assert!(m.queue.items[0].last_attempt_at.is_none());
    assert_eq!(m.queue.items[0].attempts, 3);
    assert!(!m.force_immediate_retry(&id("G9")));
}

#[test]
fn on_score_sent_stats_pending_marks_item_and_stays_green() {
    let mut m = empty_manager();
    m.enqueue_game_end("e".into(), "G1".into(), 0, 0, "{}".into(), now());
    assert!(m.on_score_sent_stats_pending(&id("G1")));
    assert!(m.queue.items[0].score_sent);
    assert!(m.is_stats_pending(&id("G1")));
    m.recompute_indicator(now());
    assert_eq!(m.indicator_state().health, HealthState::Green);
    assert!(!m.on_score_sent_stats_pending(&id("G1")));
}

#[test]
fn stats_pending_item_is_never_stuck_even_when_old() {
    let mut m = empty_manager();
    m.enqueue_game_end("e".into(), "G1".into(), 0, 0, "{}".into(), now());
    m.queue.items[0].queued_at = minutes_ago(90);
    m.on_score_sent_stats_pending(&id("G1"));
    assert!(!m.is_stuck(&id("G1"), now()));
}

#[test]
fn detail_rows_places_stats_pending_after_pending_before_recent() {
    let mut m = empty_manager();
    m.enqueue_game_end("e".into(), "G_DONE".into(), 0, 0, "{}".into(), now());
    let done = m.queue.items[0].id.clone();
    m.on_item_resolved(done, 0);
    m.enqueue_game_end("e".into(), "G_STATS".into(), 0, 0, "{}".into(), now());
    m.on_score_sent_stats_pending(&id("G_STATS"));
    m.enqueue_game_end("e".into(), "G_PEND".into(), 0, 0, "{}".into(), now());

    let rows = m.detail_rows(now(), 0);
    assert_eq!(rows.len(), 3);
    assert!(matches!(&rows[0], DetailRow::Pending { game_number, .. } if game_number == "G_PEND"));
    assert!(matches!(&rows[1], DetailRow::StatsPending { game_number, .. } if game_number == "G_STATS"));
    assert!(matches!(&rows[2], DetailRow::RecentSuccess { game_number, .. } if game_number == "G_DONE"));
}

#[test]
fn retry_all_preserves_score_sent_and_resets_score_pending() {
    let mut m = empty_manager();
    m.enqueue_game_end("e".into(), "G1".into(), 0, 0, "{}".into(), now());
    m.enqueue_game_end("e".into(), "G2".into(), 0, 0, "{}".into(), now());
    m.on_score_sent_stats_pending(&id("G2"));
    m.queue.items[0].attempts = 4;
    m.retry_all(now());
    assert!(!m.queue.items[0].score_sent);
    assert_eq!(m.queue.items[0].attempts, 0);
    assert!(m.queue.items[1].score_sent);
    // One stats retry for the stats-pending game, none for the other.
    assert_eq!(m.stats_retry_positions(), vec![1]);
}

#[test]
fn stats_sweep_names_every_stats_pending_item_in_order() {
    let mut m = empty_manager();
    for g in ["G1", "G2", "G3", "G4"] {
        m.enqueue_game_end("e".into(), g.into(), 0, 0, "{}".into(), now());
    }
    assert!(m.stats_retry_positions().is_empty());
    m.on_score_sent_stats_pending(&id("G1"));
    m.on_score_sent_stats_pending(&id("G4"));
    assert_eq!(m.stats_retry_positions(), vec![0, 3]);
}

#[test]
fn token_refreshed_clears_flag_and_resets_queue_items() {
    let mut m = PortalManager::new_for_test(QueueFile::empty(), false, true, now());
    m.enqueue_game_end("e".into(), "G1".into(), 0, 0, "{}".into(), now());
    m.queue.items[0].attempts = 9;
    m.queue.items[0].last_attempt_at = Some(now());
    m.token_refreshed();
    assert!(!m.token_known_problem);
    assert_eq!(m.queue.items[0].attempts, 0);
    assert!(m.queue.items[0].last_attempt_at.is_none());
}

#[test]
fn queue_with_only_stats_pending_item_is_green() {
    let mut item = mk_young_item();
    item.score_sent = true;
    let q = QueueFile {
        version: 1,
        items: vec![item],
    };
    let m = PortalManager::new_for_test(q, false, false, now());
    assert_eq!(m.indicator_state().health, HealthState::Green);
}

#[test]
fn is_stats_pending_reflects_score_sent_flag() {
    let mut m = empty_manager();
    m.enqueue_game_end("e".into(), "G1".into(), 0, 0, "{}".into(), now());
    assert!(!m.is_stats_pending(&id("G1")));
    m.on_score_sent_stats_pending(&id("G1"));
    assert!(m.is_stats_pending(&id("G1")));
    assert!(!m.is_stats_pending(&id("G9")));
}

#[test]
fn every_queued_item_has_exactly_one_detail_row() {
    let mut stuck = mk_stuck_item();
    stuck.id = id("G_STUCK");
    let mut young = mk_young_item();
    young.id = id("G_YOUNG");
    let mut stats = mk_stuck_item();
    stats.id = id("G_STATS");
    stats.score_sent = true;
    let mut queue = QueueFile::empty();
    queue.items = vec![stats, young, stuck];
    let m = PortalManager::new_for_test(queue, false, false, now());
    let rows = m.detail_rows(now(), 0);
    assert_eq!(rows.len(), 3);
    assert!(matches!(&rows[0], DetailRow::Stuck { game_number, .. } if game_number == "G_STUCK"));
    assert!(matches!(&rows[1], DetailRow::Pending { game_number, .. } if game_number == "G_YOUNG"));
    assert!(matches!(&rows[2], DetailRow::StatsPending { game_number, .. } if game_number == "G_STATS"));
}
