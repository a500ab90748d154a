use refbox::beep_test::{truncate_at_laps, BeepTest, BeepTestPreset, Level, OldBeepTest, OldLevel};

fn level(count: u8, secs: u64) -> Level {
    Level {
        count,
        duration_secs: secs,
    }
}

#[test]
fn truncate_at_laps_stops_exactly_on_a_level_boundary() {
    let levels = vec![level(3, 10), level(4, 20), level(5, 30)];
    let truncated = truncate_at_laps(&levels, 7);
    assert_eq!(truncated.len(), 2);
    assert_eq!(truncated[0].count, 3);
    assert_eq!(truncated[1].count, 4);
}

#[test]
fn truncate_at_laps_with_target_past_the_total_returns_everything() {
    let levels = vec![level(3, 10), level(4, 20)];
    let truncated = truncate_at_laps(&levels, 100);
    assert_eq!(truncated, levels);
}

#[test]
fn truncate_at_laps_with_zero_target_returns_an_empty_schedule() {
    let levels = vec![level(3, 10)];
    let truncated = truncate_at_laps(&levels, 0);
    assert_eq!(truncated, vec![]);
}

#[test]
fn truncate_at_laps_cuts_the_level_that_passes_the_target() {
    let levels = vec![level(3, 10), level(4, 20), level(5, 30)];
    let truncated = truncate_at_laps(&levels, 5);
    assert_eq!(truncated, vec![level(3, 10), level(2, 20)]);
}

#[test]
fn detect_levels_round_trips_and_rejects_custom() {
    for preset in BeepTestPreset::all() {
        assert_eq!(
            BeepTestPreset::detect_levels(&preset.config().levels),
            Some(preset)
        );
    }
    let mut custom = BeepTestPreset::Full25.config().levels;
    custom[0].duration_secs = 35;
    assert_eq!(BeepTestPreset::detect_levels(&custom), None);

    let short = &BeepTestPreset::Full25.config().levels[..3];
    assert_eq!(BeepTestPreset::detect_levels(short), None);
}

#[test]
fn default_is_the_ref_25m_preset() {
    assert_eq!(BeepTest::default(), BeepTestPreset::Ref25.config());
}

#[test]
fn every_full_preset_has_37_laps_over_ten_levels() {
    let expected_counts: Vec<u8> = vec![3, 3, 3, 4, 4, 4, 4, 4, 4, 4];
    for preset in BeepTestPreset::all().into_iter().filter(|p| !p.is_ref()) {
        let config = preset.config();
        assert_eq!(config.levels.len(), 10, "{preset:?} has 10 levels");
        let counts: Vec<u8> = config.levels.iter().map(|l| l.count).collect();
        assert_eq!(counts, expected_counts, "{preset:?} lap counts");
        let laps: u32 = config.levels.iter().map(|l| u32::from(l.count)).sum();
        assert_eq!(laps, 37, "{preset:?} totals 37 laps");
    }
}

#[test]
fn every_ref_preset_is_a_26_lap_prefix_of_its_full_counterpart() {
    for ref_preset in BeepTestPreset::all().into_iter().filter(|p| p.is_ref()) {
        let full_preset = BeepTestPreset::all()
            .into_iter()
            .find(|p| !p.is_ref() && p.court_millimetres() == ref_preset.court_millimetres())
            .expect("every ref preset has a full counterpart at its court length");
        let ref_levels = ref_preset.config().levels;
        let full_levels = full_preset.config().levels;

        let laps: u32 = ref_levels.iter().map(|l| u32::from(l.count)).sum();
        assert_eq!(laps, 26, "{ref_preset:?} totals 26 laps");
        assert!(ref_levels.len() <= full_levels.len());

        for (i, (r, f)) in ref_levels.iter().zip(full_levels.iter()).enumerate() {
            assert_eq!(r.duration_secs, f.duration_secs);
            if i + 1 == ref_levels.len() {
                assert!(r.count <= f.count);
            } else {
                assert_eq!(r.count, f.count);
            }
        }
    }
}

#[test]
fn shorter_court_durations_are_the_25m_table_scaled_and_rounded_up() {
    let base = BeepTestPreset::Full25.config().levels;
    let ratios = [
        (BeepTestPreset::Full23, 0.92_f64),
        (BeepTestPreset::Full25Yd, 0.9144_f64),
        (BeepTestPreset::Full22, 0.88_f64),
        (BeepTestPreset::Full21, 0.84_f64),
    ];
    for (preset, ratio) in ratios {
        for (short, long) in preset.config().levels.iter().zip(base.iter()) {
            let expected = (long.duration_secs as f64 * ratio).ceil() as u64;
            assert_eq!(short.duration_secs, expected, "{preset:?}");
        }
    }
    for preset in BeepTestPreset::all() {
        if preset.is_ref() || preset == BeepTestPreset::Full25 {
            continue;
        }
        assert_eq!(ratios.iter().filter(|(p, _)| *p == preset).count(), 1);
    }
}

#[test]
fn preset_totals_match_the_official_sheets() {
    fn total_secs(config: &BeepTest) -> u64 {
        config.pre_secs
            + config
                .levels
                .iter()
                .map(|l| l.duration_secs * u64::from(l.count))
                .sum::<u64>()
    }

    let sheet = [
        (BeepTestPreset::Full25, 988_u64, "16:28"),
        (BeepTestPreset::Full23, 930, "15:30"),
        (BeepTestPreset::Full25Yd, 923, "15:23"),
        (BeepTestPreset::Full22, 887, "14:47"),
        (BeepTestPreset::Full21, 851, "14:11"),
        (BeepTestPreset::Ref25, 770, "12:50"),
        (BeepTestPreset::Ref23, 723, "12:03"),
        (BeepTestPreset::Ref25Yd, 716, "11:56"),
        (BeepTestPreset::Ref22, 691, "11:31"),
        (BeepTestPreset::Ref21, 662, "11:02"),
    ];
    for (preset, expected, printed) in sheet {
        assert_eq!(total_secs(&preset.config()), expected, "{preset:?} {printed}");
    }
    for preset in BeepTestPreset::all() {
        assert_eq!(sheet.iter().filter(|(p, _, _)| *p == preset).count(), 1);
    }
}

#[test]
fn all_pairs_every_court_length_with_a_ref_and_a_full_schedule() {
    let all = BeepTestPreset::all();
    for (i, a) in all.iter().enumerate() {
        for b in all.iter().skip(i + 1) {
            assert_ne!(a, b, "ALL lists {a:?} twice");
        }
    }
    let refs = all.iter().filter(|p| p.is_ref()).count();
    assert_eq!(refs * 2, all.len());
    for preset in all {
        let pool = preset.court_millimetres();
        assert_eq!(all.iter().filter(|p| p.court_millimetres() == pool).count(), 2);
        assert_eq!(
            all.iter()
                .filter(|p| p.court_millimetres() == pool && p.is_ref())
                .count(),
            1
        );
    }
}

#[test]
fn test_migrate_beep_test_absent() {
    let old = OldBeepTest::default();
    assert_eq!(BeepTest::migrate(&old), BeepTest::default());
}

#[test]
fn test_migrate_beep_test_present() {
    let old = OldBeepTest {
        pre: Some(20),
        levels: Some(vec![OldLevel {
            count: Some(2),
            duration: Some(15),
        }]),
    };
    let bt = BeepTest::migrate(&old);
    assert_eq!(bt.pre_secs, 20);
    assert_eq!(bt.levels.len(), 1);
    assert_eq!(bt.levels[0].count, 2);
    assert_eq!(bt.levels[0].duration_secs, 15);
}

#[test]
fn migrate_with_a_negative_warm_up_keeps_the_default() {
    let old = OldBeepTest {
        pre: Some(-5),
        levels: None,
    };
    let bt = BeepTest::migrate(&old);
    assert_eq!(bt.pre_secs, 10);
    assert_eq!(bt.levels, BeepTest::default().levels);
}

#[test]
fn distance_labels_name_the_court_length() {
    assert_eq!(BeepTestPreset::Full25Yd.distance_label(), "25YD");
    assert_eq!(BeepTestPreset::Ref21.distance_label(), "21M");
    assert_eq!(BeepTestPreset::Ref25Yd.court_millimetres(), 22_860);
}

#[test]
fn migrate_preserves_custom_levels() {
    let old = OldBeepTest {
        pre: None,
        levels: Some(vec![OldLevel {
            count: Some(2),
            duration: Some(45),
        }]),
    };
    let migrated = BeepTest::migrate(&old);
    assert_eq!(migrated.levels.len(), 1);
    assert_eq!(migrated.levels[0].count, 2);
    assert_eq!(migrated.levels[0].duration_secs, 45);
}
