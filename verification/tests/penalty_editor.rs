use refbox::penalty_editor::{
    EditableItem, FormatHint, ListEditor, Origin, PenaltyEditorError, PenaltySummary,
};
use refbox::tournament_manager::{
    BlackWhiteBundle, Color, GameConfig, GamePeriod, Penalty, PenaltyKind, TournamentManager,
};

const SEC: u64 = 1_000_000_000;
const BASE: u64 = 100_000 * SEC;

fn secs(s: u64) -> u64 {
    s * SEC
}

fn b_origin(index: usize) -> Origin {
    Origin { color: Color::Black, index }
}

fn w_origin(index: usize) -> Origin {
    Origin { color: Color::White, index }
}

fn playing_manager(now: u64) -> TournamentManager {
    let config = GameConfig {
        half_play_duration: secs(900),
        ..GameConfig::default()
    };
    let mut tm = TournamentManager::new(config);
    tm.start_play_now(now).unwrap();
    tm
}

fn pen(kind: PenaltyKind, player_number: u8, start_secs: u64) -> Penalty {
    Penalty {
        kind,
        player_number,
        start_period: GamePeriod::FirstHalf,
        start_time: secs(start_secs),
    }
}

#[test]
fn test_add_penalty() {
    let now = BASE;
    let apply_time = now + secs(20);
    let mut tm = playing_manager(now);
    let mut pen_edit = ListEditor::new();

    let b_pen = pen(PenaltyKind::OneMinute, 3, 880);
    let w_pen = pen(PenaltyKind::TwoMinute, 13, 880);

    assert_eq!(
        pen_edit.add_item(Color::Black, 4, PenaltyKind::OneMinute),
        Err(PenaltyEditorError::NotInSession)
    );

    pen_edit.start_session(&tm).unwrap();
    pen_edit
        .add_item(Color::Black, b_pen.player_number, b_pen.kind)
        .unwrap();
    assert_eq!(
        pen_edit.get_item(Color::Black, 0),
        Ok(PenaltySummary {
            kind: b_pen.kind,
            player_number: b_pen.player_number,
            color: Color::Black,
        })
    );

    pen_edit
        .add_item(Color::White, w_pen.player_number, w_pen.kind)
        .unwrap();
    assert_eq!(
        pen_edit.get_item(Color::White, 0),
        Ok(PenaltySummary {
            kind: w_pen.kind,
            player_number: w_pen.player_number,
            color: Color::White,
        })
    );

    pen_edit.apply_changes(&mut tm, apply_time).unwrap();
    assert_eq!(
        tm.get_penalties(),
        BlackWhiteBundle {
            black: vec![b_pen],
            white: vec![w_pen],
        }
    );
    assert!(!pen_edit.session_started);
}

#[test]
fn test_delete_penalty() {
    let mut now = BASE;
    let mut tm = playing_manager(now);
    now += secs(5);

    let b_pen_0 = pen(PenaltyKind::OneMinute, 7, 895);
    let w_pen_0 = pen(PenaltyKind::FiveMinute, 4, 895);
    let b_pen_1 = pen(PenaltyKind::TotalDismissal, 13, 895);
    let w_pen_1 = pen(PenaltyKind::OneMinute, 6, 895);

    tm.start_penalty(Color::Black, b_pen_0.player_number, b_pen_0.kind, now)
        .unwrap();
    tm.start_penalty(Color::White, w_pen_0.player_number, w_pen_0.kind, now)
        .unwrap();

    let mut pen_edit = ListEditor::new();
    assert_eq!(
        pen_edit.delete_item(Color::Black, 0),
        Err(PenaltyEditorError::NotInSession)
    );

    pen_edit.start_session(&tm).unwrap();
    assert_eq!(
        pen_edit.get_item(Color::Black, 0),
        Ok(PenaltySummary {
            kind: b_pen_0.kind,
            player_number: b_pen_0.player_number,
            color: Color::Black,
        })
    );
    assert_eq!(
        pen_edit.get_item(Color::White, 0),
        Ok(PenaltySummary {
            kind: w_pen_0.kind,
            player_number: w_pen_0.player_number,
            color: Color::White,
        })
    );
    assert_eq!(
        pen_edit.items.black,
        vec![EditableItem::Original(b_origin(0), b_pen_0)]
    );
    assert_eq!(
        pen_edit.items.white,
        vec![EditableItem::Original(w_origin(0), w_pen_0)]
    );

    pen_edit.delete_item(Color::Black, 0).unwrap();
    pen_edit.delete_item(Color::White, 0).unwrap();

    assert_eq!(
        pen_edit.get_item(Color::Black, 0),
        Ok(PenaltySummary {
            kind: b_pen_0.kind,
            player_number: b_pen_0.player_number,
            color: Color::Black,
        })
    );
    assert_eq!(
        pen_edit.get_item(Color::White, 0),
        Ok(PenaltySummary {
            kind: w_pen_0.kind,
            player_number: w_pen_0.player_number,
            color: Color::White,
        })
    );
    assert_eq!(
        pen_edit.items.black,
        vec![EditableItem::Deleted(b_origin(0), b_pen_0)]
    );
    assert_eq!(
        pen_edit.items.white,
        vec![EditableItem::Deleted(w_origin(0), w_pen_0)]
    );

    // The original ones should be re-deletable without any changes
    pen_edit.delete_item(Color::Black, 0).unwrap();
    pen_edit.delete_item(Color::White, 0).unwrap();
    assert_eq!(
        pen_edit.items.black,
        vec![EditableItem::Deleted(b_origin(0), b_pen_0)]
    );
    assert_eq!(
        pen_edit.items.white,
        vec![EditableItem::Deleted(w_origin(0), w_pen_0)]
    );

    pen_edit
        .items
        .black
        .push(EditableItem::Edited(b_origin(1), b_pen_1));
    pen_edit
        .items
        .black
        .push(EditableItem::New(PenaltyKind::TwoMinute, 9));
    pen_edit
        .items
        .white
        .push(EditableItem::Edited(w_origin(1), w_pen_1));
    pen_edit
        .items
        .white
        .push(EditableItem::New(PenaltyKind::TwoMinute, 3));

    pen_edit.delete_item(Color::Black, 1).unwrap();
    pen_edit.delete_item(Color::Black, 2).unwrap();
    pen_edit.delete_item(Color::White, 1).unwrap();
    pen_edit.delete_item(Color::White, 2).unwrap();

    assert_eq!(
        pen_edit.items.black,
        vec![
            EditableItem::Deleted(b_origin(0), b_pen_0),
            EditableItem::Deleted(b_origin(1), b_pen_1)
        ]
    );
    assert_eq!(
        pen_edit.items.white,
        vec![
            EditableItem::Deleted(w_origin(0), w_pen_0),
            EditableItem::Deleted(w_origin(1), w_pen_1)
        ]
    );

    assert_eq!(
        pen_edit.delete_item(Color::Black, 3),
        Err(PenaltyEditorError::InvalidIndex(Color::Black, 3))
    );
    assert_eq!(
        pen_edit.delete_item(Color::White, 2),
        Err(PenaltyEditorError::InvalidIndex(Color::White, 2))
    );

    pen_edit.items.black.remove(1);
    pen_edit.items.white.remove(1);

    now += secs(20);
    pen_edit.apply_changes(&mut tm, now).unwrap();
    assert_eq!(
        tm.get_penalties(),
        BlackWhiteBundle {
            black: vec![],
            white: vec![],
        }
    );
}

#[test]
fn test_edit_penalty() {
    let mut now = BASE;
    let mut tm = playing_manager(now);
    now += secs(5);

    let b_pen_0 = pen(PenaltyKind::OneMinute, 7, 895);
    let b_pen_0_ed = Penalty {
        kind: PenaltyKind::TwoMinute,
        ..b_pen_0
    };
    let w_pen_0 = pen(PenaltyKind::FiveMinute, 4, 895);
    let w_pen_0_ed = Penalty {
        kind: PenaltyKind::TwoMinute,
        ..w_pen_0
    };
    let b_pen_1 = pen(PenaltyKind::TotalDismissal, 13, 895);
    let b_pen_1_ed = Penalty {
        kind: PenaltyKind::FiveMinute,
        ..b_pen_1
    };
    let w_pen_1 = pen(PenaltyKind::OneMinute, 6, 895);
    let w_pen_1_ed = Penalty {
        kind: PenaltyKind::FiveMinute,
        ..w_pen_1
    };
    let b_pen_2 = pen(PenaltyKind::FiveMinute, 1, 895);
    let b_pen_2_ed = Penalty {
        kind: PenaltyKind::TwoMinute,
        ..b_pen_2
    };
    let w_pen_2 = pen(PenaltyKind::TwoMinute, 8, 895);
    let w_pen_2_ed = Penalty {
        kind: PenaltyKind::OneMinute,
        player_number: 9,
        ..w_pen_2
    };

    for (color, p) in [
        (Color::Black, b_pen_0),
        (Color::White, w_pen_0),
        (Color::Black, b_pen_1),
        (Color::White, w_pen_1),
    ] {
        tm.start_penalty(color, p.player_number, p.kind, now).unwrap();
    }

    let mut pen_edit = ListEditor::new();
    assert_eq!(
        pen_edit.edit_item(Color::Black, 0, Color::Black, 2, PenaltyKind::OneMinute),
        Err(PenaltyEditorError::NotInSession)
    );

    pen_edit.start_session(&tm).unwrap();

    // Edit Original without color change
    pen_edit
        .edit_item(Color::Black, 0, Color::Black, b_pen_0_ed.player_number, b_pen_0_ed.kind)
        .unwrap();
    pen_edit
        .edit_item(Color::White, 0, Color::White, w_pen_0_ed.player_number, w_pen_0_ed.kind)
        .unwrap();

    // Edit Original with color change
    pen_edit
        .edit_item(Color::Black, 1, Color::White, b_pen_1.player_number, b_pen_1.kind)
        .unwrap();
    pen_edit
        .edit_item(Color::White, 1, Color::Black, w_pen_1.player_number, w_pen_1.kind)
        .unwrap();

    assert_eq!(
        pen_edit.items.black,
        vec![
            EditableItem::Edited(b_origin(0), b_pen_0_ed),
            EditableItem::Edited(w_origin(1), w_pen_1)
        ]
    );
    assert_eq!(
        pen_edit.items.white,
        vec![
            EditableItem::Edited(w_origin(0), w_pen_0_ed),
            EditableItem::Edited(b_origin(1), b_pen_1)
        ]
    );

    // Edit Edited
    pen_edit
        .edit_item(Color::Black, 1, Color::Black, w_pen_1_ed.player_number, w_pen_1_ed.kind)
        .unwrap();
    pen_edit
        .edit_item(Color::White, 1, Color::White, b_pen_1_ed.player_number, b_pen_1_ed.kind)
        .unwrap();

    assert_eq!(
        pen_edit.items.black,
        vec![
            EditableItem::Edited(b_origin(0), b_pen_0_ed),
            EditableItem::Edited(w_origin(1), w_pen_1_ed)
        ]
    );
    assert_eq!(
        pen_edit.items.white,
        vec![
            EditableItem::Edited(w_origin(0), w_pen_0_ed),
            EditableItem::Edited(b_origin(1), b_pen_1_ed)
        ]
    );

    // Edit Deleted and New
    pen_edit
        .items
        .black
        .push(EditableItem::Deleted(b_origin(2), b_pen_2));
    pen_edit
        .items
        .white
        .push(EditableItem::Deleted(w_origin(2), w_pen_2));
    pen_edit
        .items
        .black
        .push(EditableItem::New(PenaltyKind::TotalDismissal, 15));
    pen_edit
        .items
        .white
        .push(EditableItem::New(PenaltyKind::TwoMinute, 2));

    pen_edit
        .edit_item(Color::Black, 2, Color::Black, b_pen_2_ed.player_number, b_pen_2_ed.kind)
        .unwrap();
    pen_edit
        .edit_item(Color::White, 2, Color::White, w_pen_2_ed.player_number, w_pen_2_ed.kind)
        .unwrap();
    pen_edit
        .edit_item(Color::Black, 3, Color::Black, 14, PenaltyKind::TotalDismissal)
        .unwrap();
    pen_edit
        .edit_item(Color::White, 3, Color::White, 3, PenaltyKind::FiveMinute)
        .unwrap();

    assert_eq!(
        pen_edit.items.black,
        vec![
            EditableItem::Edited(b_origin(0), b_pen_0_ed),
            EditableItem::Edited(w_origin(1), w_pen_1_ed),
            EditableItem::Edited(b_origin(2), b_pen_2_ed),
            EditableItem::New(PenaltyKind::TotalDismissal, 14)
        ]
    );
    assert_eq!(
        pen_edit.items.white,
        vec![
            EditableItem::Edited(w_origin(0), w_pen_0_ed),
            EditableItem::Edited(b_origin(1), b_pen_1_ed),
            EditableItem::Edited(w_origin(2), w_pen_2_ed),
            EditableItem::New(PenaltyKind::FiveMinute, 3)
        ]
    );

    // Test applying changes
    pen_edit.items.black.remove(3);
    pen_edit.items.black.remove(2);
    pen_edit.items.white.remove(3);
    pen_edit.items.white.remove(2);

    now += secs(20);
    pen_edit.apply_changes(&mut tm, now).unwrap();
    assert_eq!(
        tm.get_penalties(),
        BlackWhiteBundle {
            black: vec![b_pen_0_ed, w_pen_1_ed],
            white: vec![w_pen_0_ed, b_pen_1_ed],
        }
    );
}

#[test]
fn a_second_session_is_refused_and_aborting_drops_the_changes() {
    let now = BASE;
    let mut tm = playing_manager(now);
    tm.start_penalty(Color::Black, 5, PenaltyKind::OneMinute, now + secs(1))
        .unwrap();
    let mut pen_edit = ListEditor::new();
    pen_edit.start_session(&tm).unwrap();
    assert_eq!(
        pen_edit.start_session(&tm),
        Err(PenaltyEditorError::ExistingSession)
    );
    pen_edit.delete_item(Color::Black, 0).unwrap();
    pen_edit.abort_session();
    assert!(!pen_edit.session_started);
    assert!(pen_edit.items.black.is_empty());
    assert_eq!(
        pen_edit.apply_changes(&mut tm, now + secs(2)),
        Err(PenaltyEditorError::NotInSession)
    );
    assert_eq!(tm.get_penalties().black.len(), 1);
}

#[test]
fn printable_lists_show_time_hint_and_kind() {
    let now = BASE;
    let mut tm = playing_manager(now);
    tm.start_penalty(Color::Black, 3, PenaltyKind::OneMinute, now)
        .unwrap();
    let mut pen_edit = ListEditor::new();
    pen_edit.start_session(&tm).unwrap();
    pen_edit
        .add_item(Color::White, 12, PenaltyKind::TotalDismissal)
        .unwrap();
    let lists = pen_edit.get_printable_lists(&tm, now + secs(15)).unwrap();
    assert_eq!(lists.black.len(), 1);
    assert_eq!(lists.black[0].text, "Player 3 - 0:45 (1m)");
    assert_eq!(lists.black[0].hint, FormatHint::NoChange);
    assert_eq!(lists.white[0].text, "Player 12 - Pending (DSMS)");
    assert_eq!(lists.white[0].hint, FormatHint::New);
}

#[test]
fn changes_apply_from_the_highest_origin_down() {
    let now = BASE;
    let mut tm = playing_manager(now);
    for n in [1, 2, 3] {
        tm.start_penalty(Color::Black, n, PenaltyKind::TwoMinute, now)
            .unwrap();
    }
    let mut pen_edit = ListEditor::new();
    pen_edit.start_session(&tm).unwrap();
    pen_edit.delete_item(Color::Black, 0).unwrap();
    pen_edit
        .edit_item(Color::Black, 2, Color::Black, 30, PenaltyKind::FiveMinute)
        .unwrap();
    pen_edit.apply_changes(&mut tm, now + secs(1)).unwrap();
    let numbers: Vec<u8> = tm
        .get_penalties()
        .black
        .iter()
        .map(|p| p.player_number)
        .collect();
    assert_eq!(numbers, vec![2, 30]);
}
