use refbox::beep_test::BeepTest;
use refbox::settings::{
    access_key_in, AccessKey, Config, CustomSite, GameSource, Hardware, Mode, OldConfig,
    OldHardware, RemoteSource, UwhPortal,
};
use refbox::tournament_manager::{GameConfig, OldGame};
use refbox::sim_frame::FrontDisplayLayout;
use refbox::sound::{OldSoundSettings, Volume};

const PORTAL: &str = "https://api.uwhportal.com";

fn ev(id: &str) -> String {
    format!("events/{id}")
}

#[test]
fn access_key_is_found_by_site_and_event() {
    let mut config = Config::default();
    config.store_access_key(PORTAL, &ev("abc"), "KEY-A".into());
    assert_eq!(config.access_key_for(PORTAL, &ev("abc")), Some("KEY-A"));
}

#[test]
fn access_key_is_not_shared_across_events_on_one_site() {
    let mut config = Config::default();
    config.store_access_key(PORTAL, &ev("abc"), "KEY-A".into());
    assert_eq!(config.access_key_for(PORTAL, &ev("xyz")), None);
}

#[test]
fn access_key_is_not_shared_across_sites_with_a_colliding_event_id() {
    let mut config = Config::default();
    config.store_access_key(PORTAL, &ev("abc"), "PORTAL-KEY".into());
    assert_eq!(
        config.access_key_for("https://scores.example.org", &ev("abc")),
        None
    );
}

#[test]
fn storing_twice_for_one_site_and_event_replaces_rather_than_appends() {
    let mut config = Config::default();
    config.store_access_key(PORTAL, &ev("abc"), "OLD".into());
    config.store_access_key(PORTAL, &ev("abc"), "NEW".into());
    assert_eq!(config.access_keys.len(), 1);
    assert_eq!(config.access_key_for(PORTAL, &ev("abc")), Some("NEW"));
}

#[test]
fn returning_to_a_previously_used_event_finds_its_key() {
    let mut config = Config::default();
    config.store_access_key(PORTAL, &ev("aaa"), "KEY-A".into());
    config.store_access_key(PORTAL, &ev("bbb"), "KEY-B".into());
    assert_eq!(config.access_key_for(PORTAL, &ev("aaa")), Some("KEY-A"));
    assert_eq!(config.access_key_for(PORTAL, &ev("bbb")), Some("KEY-B"));
}

#[test]
fn storing_a_key_keeps_every_other_pair() {
    let mut config = Config::default();
    config.store_access_key(PORTAL, &ev("abc"), "KEY-A".into());
    config.store_access_key("https://scores.example.org", &ev("abc"), "KEY-B".into());
    config.store_access_key(PORTAL, &ev("abc"), "KEY-C".into());
    assert_eq!(config.access_keys.len(), 2);
    assert_eq!(
        config.access_key_for("https://scores.example.org", &ev("abc")),
        Some("KEY-B")
    );
    let keys = vec![AccessKey {
        site: PORTAL.into(),
        event: ev("x"),
        key: "K".into(),
    }];
    assert_eq!(access_key_in(&keys, PORTAL, &ev("x")), Some("K"));
    assert_eq!(access_key_in(&keys, PORTAL, &ev("y")), None);
}

#[test]
fn one_unreadable_access_key_does_not_discard_the_others() {
    let old = OldConfig {
        access_keys: vec![AccessKey {
            site: PORTAL.into(),
            event: "events/good-A".into(),
            key: "KEEP-ME".into(),
        }],
        ..Default::default()
    };
    let config = Config::migrate(old);
    assert_eq!(
        config.access_key_for(PORTAL, "events/good-A"),
        Some("KEEP-ME")
    );
    assert_eq!(config.access_keys.len(), 1);
}

#[test]
fn test_migrate_uwhportal() {
    let u = UwhPortal::migrate(Some("token".to_string()));
    assert_eq!(u.token, "token");
    assert_eq!(UwhPortal::migrate(None), UwhPortal::default());
}

#[test]
fn test_migrate_custom_site() {
    let c = CustomSite::migrate(
        Some("http://scoreboard.local:8099/api/events/1234-A".to_string()),
        Some("custom-token".to_string()),
    );
    assert_eq!(c.url, "http://scoreboard.local:8099/api/events/1234-A");
    assert_eq!(c.token, "custom-token");
}

#[test]
fn legacy_token_slots_survive_a_load_and_vanish_only_when_empty() {
    let old = OldConfig {
        uwhportal_token: Some(Some("LEGACY-PORTAL".into())),
        custom_site: Some((
            Some("https://scores.example.org".into()),
            Some("LEGACY-CUSTOM".into()),
        )),
        ..Default::default()
    };
    let config = Config::migrate(old);
    assert_eq!(config.uwhportal.token, "LEGACY-PORTAL");
    assert_eq!(config.custom_site.token, "LEGACY-CUSTOM");
    assert_eq!(config.custom_site.url, "https://scores.example.org");
    let empty = Config::migrate(OldConfig::default());
    assert!(empty.uwhportal.token.is_empty());
    assert!(empty.custom_site.token.is_empty());
}

#[test]
fn migrate_without_new_keys_uses_defaults() {
    let config = Config::migrate(OldConfig::default());
    assert_eq!(config.source, GameSource::Manual);
    assert_eq!(config.remembered_remote, RemoteSource::Portal);
    assert_eq!(config.custom_site, CustomSite::default());
}

#[test]
fn migrate_reads_the_new_keys_when_present() {
    let old = OldConfig {
        source: Some("Custom".into()),
        remembered_remote: Some("Custom".into()),
        custom_site: Some((
            Some("http://scoreboard.local:8099/api/events/1234-A".into()),
            Some("custom-token".into()),
        )),
        ..Default::default()
    };
    let config = Config::migrate(old);
    assert_eq!(config.source, GameSource::Custom);
    assert_eq!(config.remembered_remote, RemoteSource::Custom);
    assert_eq!(
        config.custom_site.url,
        "http://scoreboard.local:8099/api/events/1234-A"
    );
    assert_eq!(config.custom_site.token, "custom-token");
}

#[test]
fn test_migrate_audible_countdown_defaults_false_when_absent() {
    assert!(!Config::migrate(OldConfig::default()).audible_countdown);
}

#[test]
fn test_migrate_audible_countdown_respects_present_true() {
    let old = OldConfig {
        audible_countdown: Some(true),
        ..Default::default()
    };
    assert!(Config::migrate(old).audible_countdown);
}

#[test]
fn test_migrate_show_behind_schedule_time_defaults_true_when_absent() {
    assert!(Config::migrate(OldConfig::default()).show_behind_schedule_time);
}

#[test]
fn test_migrate_show_behind_schedule_time_respects_present_false() {
    let old = OldConfig {
        show_behind_schedule_time: Some(false),
        ..Default::default()
    };
    assert!(!Config::migrate(old).show_behind_schedule_time);
}

#[test]
fn test_migrate_confirm_score_defaults_true_when_absent() {
    assert!(Config::migrate(OldConfig::default()).confirm_score);
}

#[test]
fn test_migrate_confirm_score_respects_present_false() {
    let old = OldConfig {
        confirm_score: Some(false),
        ..Default::default()
    };
    assert!(!Config::migrate(old).confirm_score);
}

#[test]
fn test_migrate_front_display_layout_is_preserved() {
    let old = OldConfig {
        front_display_layout: Some("Corners".into()),
        ..Default::default()
    };
    assert_eq!(
        Config::migrate(old).front_display_layout,
        FrontDisplayLayout::Corners
    );
}

#[test]
fn test_migrate_v041_shaped_config_keeps_operator_settings() {
    let old = OldConfig {
        mode: Some("Rugby".into()),
        hide_time: Some(true),
        confirm_score: Some(false),
        language: Some("German".into()),
        ..Default::default()
    };
    let config = Config::migrate(old);
    assert!(!config.confirm_score, "confirm_score must survive");
    assert_eq!(
        config.language.as_deref(),
        Some("German"),
        "language must survive"
    );
    assert_eq!(config.mode, Mode::Rugby);
    assert!(config.hide_time);
    assert!(config.show_behind_schedule_time);
}

#[test]
fn test_migrate_config() {
    let old = OldConfig {
        mode: Some("Rugby".into()),
        hide_time: Some(true),
        collect_scorer_cap_num: Some(true),
        game: Some(OldGame {
            half_play_duration: Some(123),
            ..Default::default()
        }),
        hardware: Some(OldHardware {
            screen_x: Some(123),
            screen_y: Some(456),
            white_on_right: Some(true),
            ..Default::default()
        }),
        uwhportal_token: Some(Some("token".into())),
        sound: Some(OldSoundSettings {
            sound_enabled: Some(false),
            whistle_vol: Some("Max".into()),
            ..Default::default()
        }),
        ..Default::default()
    };
    let config = Config::migrate(old);
    assert_eq!(config.mode, Mode::Rugby);
    assert!(config.hide_time);
    assert!(config.collect_scorer_cap_num);
    assert_eq!(config.game.half_play_duration, 123 * 1_000_000_000);
    assert_eq!(config.hardware.screen_x, 123);
    assert_eq!(config.hardware.screen_y, 456);
    assert!(config.hardware.white_on_right);
    assert_eq!(config.uwhportal.token, "token");
    assert!(!config.sound.sound_enabled);
    assert_eq!(config.sound.whistle_vol, Volume::Max);
}

#[test]
fn migrate_with_an_unknown_mode_name_keeps_the_default() {
    let old = OldConfig {
        mode: Some("Water Polo".into()),
        ..Default::default()
    };
    assert_eq!(Config::migrate(old).mode, Mode::Hockey6V6);
}

#[test]
fn test_migrate_beep_test_absent_in_a_whole_config() {
    let config = Config::migrate(OldConfig::default());
    assert_eq!(config.beep_test, BeepTest::default());
}

#[test]
fn test_migrate_hardware() {
    let old = OldHardware {
        screen_x: Some(123),
        screen_y: Some(456),
        white_on_right: Some(true),
        ..Default::default()
    };
    let hw = Hardware::migrate(&old);
    assert_eq!(hw.screen_x, 123);
    assert_eq!(hw.screen_y, 456);
    assert!(hw.white_on_right);
}

#[test]
fn hardware_coordinates_that_do_not_fit_keep_the_defaults() {
    let old = OldHardware {
        screen_x: Some(i64::from(i32::MAX) + 1),
        screen_y: Some(-5),
        brightness: Some("High".into()),
        ..Default::default()
    };
    let hw = Hardware::migrate(&old);
    assert_eq!(hw.screen_x, 945);
    assert_eq!(hw.screen_y, -5);
    assert!(!hw.white_on_right);
    assert_eq!(hw.brightness, "High");
    assert_eq!(Hardware::default().brightness, "Low");
}

#[test]
fn test_migrate_language_stays_unset_when_absent() {
    let config = Config::migrate(OldConfig::default());
    assert_eq!(config.language, None);
}

#[test]
fn test_migrate_language_is_preserved() {
    let old = OldConfig {
        language: Some("German".into()),
        ..Default::default()
    };
    let config = Config::migrate(old);
    assert_eq!(
        config.language.as_deref(),
        Some("German"),
        "a chosen interface language must survive migration"
    );
}

#[test]
fn test_migrate_display_mode_is_preserved() {
    let old = OldConfig {
        display_mode: Some("HighContrast".into()),
        ..Default::default()
    };
    let config = Config::migrate(old);
    assert_eq!(
        config.display_mode.as_deref(),
        Some("HighContrast"),
        "High Contrast is chosen for poolside readability and must survive migration"
    );
}

#[test]
fn game_timing_migrates_value_by_value() {
    let old = OldGame {
        team_timeouts_per_half: Some(2),
        nominal_break: Some(-1),
        overtime_allowed: Some(false),
        ..Default::default()
    };
    let g = GameConfig::migrate(&old);
    let d = GameConfig::default();
    assert_eq!(g.team_timeouts_per_half, 2);
    assert_eq!(g.nominal_break, d.nominal_break);
    assert!(!g.overtime_allowed);
    assert_eq!(g.half_play_duration, 900 * 1_000_000_000);
    assert_eq!(Config::migrate(OldConfig::default()).game, d);
}

#[test]
fn a_partial_custom_site_keeps_the_other_entry_empty() {
    let old = OldConfig {
        custom_site: Some((Some("https://example.org".into()), None)),
        uwhportal_token: Some(None),
        ..Default::default()
    };
    let config = Config::migrate(old);
    assert_eq!(config.custom_site.url, "https://example.org");
    assert_eq!(config.custom_site.token, "");
    assert_eq!(config.uwhportal.token, "");
}
