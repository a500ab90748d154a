use refbox::capture::{file_stem, layout_stem, variants, Variant};
use refbox::sim_frame::FrontDisplayLayout;

#[test]
fn variants_cover_game_and_beep_with_unique_filenames() {
    let v = variants();
    assert_eq!(v.len(), 15);
    let beep = v
        .iter()
        .filter(|x| matches!(x, Variant::Beep { .. }))
        .count();
    assert_eq!(beep, 5);
    let stems: std::collections::HashSet<String> = v.iter().map(|x| x.file_stem()).collect();
    assert_eq!(stems.len(), 15, "all preview filenames must be unique");
    assert!(stems.contains("beep-default"));
    assert!(stems.contains("beep-scores-only"));
    assert!(stems.contains("default-white-left"));
}

#[test]
fn game_file_stems_name_the_layout_and_side() {
    assert_eq!(file_stem(FrontDisplayLayout::BigTime, true), "big-time-white-right");
    assert_eq!(file_stem(FrontDisplayLayout::Classic, false), "classic-white-left");
    assert_eq!(layout_stem(FrontDisplayLayout::ScoresOnly), "scores-only");
    let beep = Variant::Beep {
        layout: FrontDisplayLayout::Corners,
    };
    assert_eq!(beep.file_stem(), "beep-corners");
    assert_eq!(beep.layout(), FrontDisplayLayout::Corners);
}
