use refbox::link_session::{
    is_fresh, note_from_loaded, LinkSessionFile, NoteSite, FRESHNESS_WINDOW_NANOS,
    LINK_CURRENT_VERSION,
};
use refbox::settings::Mode;
use refbox::utc_time::UtcTime;

const T0: i64 = 1_782_115_200;
const HOUR: i128 = 3_600_000_000_000;

fn at_nanos(n: i128) -> UtcTime {
    UtcTime::from_unix_nanos(n).unwrap()
}

fn t0() -> i128 {
    UtcTime::from_unix_secs(T0).unix_nanos()
}

fn sample(version: u32) -> LinkSessionFile {
    LinkSessionFile {
        version,
        event_id: "events/abc".into(),
        court: Some("A".into()),
        current_game: Some("12".into()),
        last_played: None,
        last_played_start: None,
        mode: Mode::Hockey6V6,
        site: NoteSite::Portal,
        last_active: UtcTime::from_unix_secs(T0),
    }
}

#[test]
fn is_fresh_boundaries() {
    let start = at_nanos(t0());
    assert!(is_fresh(start, start, FRESHNESS_WINDOW_NANOS));
    assert!(is_fresh(
        start,
        at_nanos(t0() + FRESHNESS_WINDOW_NANOS - HOUR),
        FRESHNESS_WINDOW_NANOS
    ));
    assert!(is_fresh(
        start,
        at_nanos(t0() + FRESHNESS_WINDOW_NANOS),
        FRESHNESS_WINDOW_NANOS
    ));
    assert!(!is_fresh(
        start,
        at_nanos(t0() + FRESHNESS_WINDOW_NANOS + 1_000_000_000),
        FRESHNESS_WINDOW_NANOS
    ));
    assert!(!is_fresh(start, at_nanos(t0() - HOUR), FRESHNESS_WINDOW_NANOS));
}

#[test]
fn the_window_is_five_days() {
    assert_eq!(FRESHNESS_WINDOW_NANOS, 120 * HOUR);
}

#[test]
fn a_future_version_is_still_quarantined() {
    let (note, set_aside) = note_from_loaded(Some(sample(LINK_CURRENT_VERSION + 1)));
    assert!(note.is_none());
    assert!(set_aside);
}

#[test]
fn a_current_note_is_used_as_is() {
    let n = sample(LINK_CURRENT_VERSION);
    let (note, set_aside) = note_from_loaded(Some(n.clone()));
    assert_eq!(note, Some(n));
    assert!(!set_aside);
}

#[test]
fn an_unreadable_note_is_set_aside() {
    let (note, set_aside) = note_from_loaded(None);
    assert!(note.is_none());
    assert!(set_aside);
}

#[test]
fn a_custom_site_note_keeps_its_address() {
    let mut n = sample(LINK_CURRENT_VERSION);
    n.site = NoteSite::Custom {
        address: "https://scores.example.org".into(),
    };
    let (note, _) = note_from_loaded(Some(n.clone()));
    assert_eq!(note.unwrap().site, n.site);
    assert_eq!(NoteSite::default(), NoteSite::Portal);
}
