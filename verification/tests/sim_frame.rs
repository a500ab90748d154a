use refbox::sim_frame::{effective_beep_layout, FrontDisplayLayout, SimFrame};

#[test]
fn cycle_order_wraps() {
    let mut l = FrontDisplayLayout::Default;
    let mut seen = vec![l];
    for _ in 0..5 {
        l = l.next();
        seen.push(l);
    }
    assert_eq!(
        seen,
        vec![
            FrontDisplayLayout::Default,
            FrontDisplayLayout::Classic,
            FrontDisplayLayout::BigTime,
            FrontDisplayLayout::Corners,
            FrontDisplayLayout::ScoresOnly,
            FrontDisplayLayout::Default,
        ]
    );
}

#[test]
fn u8_round_trips() {
    for l in [
        FrontDisplayLayout::Default,
        FrontDisplayLayout::Classic,
        FrontDisplayLayout::BigTime,
        FrontDisplayLayout::Corners,
        FrontDisplayLayout::ScoresOnly,
    ] {
        assert_eq!(FrontDisplayLayout::from_u8(l.to_u8()), l);
    }
}

#[test]
fn unknown_u8_falls_back_to_default() {
    assert_eq!(FrontDisplayLayout::from_u8(99), FrontDisplayLayout::Default);
}

#[test]
fn effective_beep_layout_forces_default_with_panel() {
    assert_eq!(
        effective_beep_layout(true, FrontDisplayLayout::Corners),
        FrontDisplayLayout::Default,
    );
    assert_eq!(
        effective_beep_layout(false, FrontDisplayLayout::Corners),
        FrontDisplayLayout::Corners,
    );
    assert_eq!(
        effective_beep_layout(false, FrontDisplayLayout::Default),
        FrontDisplayLayout::Default,
    );
}

#[test]
fn sim_frame_round_trips_and_is_one_byte_longer() {
    let payload: Vec<u8> = vec![7, 0, 255, 42];
    let frame = SimFrame {
        layout: FrontDisplayLayout::Corners,
        payload: payload.clone(),
    };
    let bytes = frame.encode();
    assert_eq!(bytes.len(), payload.len() + 1);
    assert_eq!(bytes[0], FrontDisplayLayout::Corners.to_u8());
    assert_eq!(SimFrame::decode(&bytes), frame);
}

#[test]
fn layout_bytes_are_their_cycle_positions() {
    assert_eq!(FrontDisplayLayout::Default.to_u8(), 0);
    assert_eq!(FrontDisplayLayout::ScoresOnly.to_u8(), 4);
    assert_eq!(FrontDisplayLayout::from_u8(3), FrontDisplayLayout::Corners);
    assert_eq!(FrontDisplayLayout::default(), FrontDisplayLayout::Default);
}
