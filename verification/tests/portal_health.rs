use refbox::portal_health::{
    after_scores, after_stats, is_item_retry_eligible, AfterScores, HealthDecisionState,
    HealthTask, DEGRADED_CADENCE_NANOS, GREEN_CADENCE_NANOS,
};
use refbox::portal_manager::{HealthState, ItemId, PortalEvent};
use refbox::portal_queue::{QueuedItem, CURRENT_VERSION};
use refbox::utc_time::UtcTime;

const SEC: u64 = 1_000_000_000;

fn at(secs: i64) -> UtcTime {
    UtcTime::from_unix_secs(secs)
}

fn mk_queue_item(attempts: u32, queued_at: UtcTime) -> QueuedItem {
    QueuedItem {
        id: ItemId {
            event_id: "e".into(),
            game_number: "G1".into(),
        },
        black_score: 0,
        white_score: 0,
        stats: "{}".into(),
        queued_at,
        attempts,
        last_attempt_at: None,
        force: false,
        score_sent: false,
    }
}

#[test]
fn green_cadence_is_five_minutes() {
    let s = HealthDecisionState {
        current_health: HealthState::Green,
    };
    assert_eq!(s.next_cadence(), GREEN_CADENCE_NANOS);
    assert_eq!(GREEN_CADENCE_NANOS, 300 * SEC);
}

#[test]
fn yellow_and_red_cadence_is_fifteen_seconds() {
    for h in [HealthState::Yellow, HealthState::Red] {
        let s = HealthDecisionState { current_health: h };
        assert_eq!(s.next_cadence(), DEGRADED_CADENCE_NANOS);
    }
    assert_eq!(DEGRADED_CADENCE_NANOS, 15 * SEC);
}

#[test]
fn first_ever_check_is_due_immediately() {
    let s = HealthDecisionState {
        current_health: HealthState::Green,
    };
    assert!(s.is_health_check_due(None));
}

#[test]
fn green_check_not_due_if_cadence_not_elapsed() {
    let s = HealthDecisionState {
        current_health: HealthState::Green,
    };
    assert!(!s.is_health_check_due(Some(60 * SEC)));
}

#[test]
fn green_check_due_after_cadence() {
    let s = HealthDecisionState {
        current_health: HealthState::Green,
    };
    assert!(s.is_health_check_due(Some(GREEN_CADENCE_NANOS)));
}

#[test]
fn degraded_check_due_after_fifteen_seconds() {
    let s = HealthDecisionState {
        current_health: HealthState::Red,
    };
    assert!(s.is_health_check_due(Some(15 * SEC)));
}

#[test]
fn young_item_with_zero_attempts_is_eligible_for_retry() {
    let now = at(1_700_000_000);
    let item = mk_queue_item(0, now);
    assert!(is_item_retry_eligible(&item, now));
}

#[test]
fn stuck_item_is_not_eligible_for_auto_retry() {
    let now = at(1_700_000_000);
    let item = mk_queue_item(4, at(1_700_000_000 - 31 * 60));
    assert!(!is_item_retry_eligible(&item, now));
}

#[test]
fn item_with_recent_attempt_respects_cadence() {
    let now = at(1_700_000_000);
    let mut item = mk_queue_item(1, now);
    item.last_attempt_at = Some(now);
    assert!(!is_item_retry_eligible(&item, at(1_700_000_005)));
    assert!(is_item_retry_eligible(&item, at(1_700_000_015)));
}

#[test]
fn scores_failure_skips_stats_and_reports_the_item() {
    let id = ItemId {
        event_id: "e".into(),
        game_number: "7".into(),
    };
    match after_scores(&id, false) {
        AfterScores::Failed(PortalEvent::ItemUpdated(got)) => assert_eq!(got, id),
        other => panic!("unexpected {other:?}"),
    }
    assert!(matches!(after_scores(&id, true), AfterScores::PostStats));
    let (ev, ok) = after_stats(&id, true);
    assert!(ok);
    assert!(matches!(ev, PortalEvent::ItemResolved(ref got) if *got == id));
    let (ev, ok) = after_stats(&id, false);
    assert!(!ok);
    assert!(matches!(ev, PortalEvent::ItemUpdated(ref got) if *got == id));
}

#[test]
fn first_tick_of_a_new_task_runs_a_health_check() {
    let task = HealthTask::new();
    assert!(task.health_check_due(0));
}

#[test]
fn a_new_task_starts_green_with_an_empty_current_queue() {
    let task = HealthTask::new();
    assert_eq!(task.last_success, None);
    assert_eq!(task.current_health, HealthState::Green);
    assert_eq!(task.queue_snapshot.version, CURRENT_VERSION);
    assert!(task.queue_snapshot.items.is_empty());
}
