//! Names of the display previews: one per layout and starting side for a
//! game, one per layout for a beep test.

use crate::sim_frame::FrontDisplayLayout;
use vstd::prelude::*;

verus! {

/// The layout's filename token.
pub open spec fn stem_of(layout: FrontDisplayLayout) -> Seq<char> {
    match layout {
        FrontDisplayLayout::Default => "default"@,
        FrontDisplayLayout::Classic => "classic"@,
        FrontDisplayLayout::BigTime => "big-time"@,
        FrontDisplayLayout::Corners => "corners"@,
        FrontDisplayLayout::ScoresOnly => "scores-only"@,
    }
}

/// The layout's filename token, e.g. `big-time`.
pub fn layout_stem(layout: FrontDisplayLayout) -> (r: &'static str)
    ensures
        r@ == stem_of(layout),
{
    match layout {
        FrontDisplayLayout::Default => "default",
        FrontDisplayLayout::Classic => "classic",
        FrontDisplayLayout::BigTime => "big-time",
        FrontDisplayLayout::Corners => "corners",
        FrontDisplayLayout::ScoresOnly => "scores-only",
    }
}

pub open spec fn side_of(white_on_right: bool) -> Seq<char> {
    if white_on_right {
        "white-right"@
    } else {
        "white-left"@
    }
}

/// Filename (no extension) of a game preview, e.g. `classic-white-right`.
pub fn file_stem(layout: FrontDisplayLayout, white_on_right: bool) -> (r: String)
    ensures
        r@ == stem_of(layout) + "-"@ + side_of(white_on_right),
{
    let side = if white_on_right {
        "white-right"
    } else {
        "white-left"
    };
    let s = String::from_str(layout_stem(layout));
    let s = s.concat("-");
    s.concat(side)
}

/// One preview to render.
#[derive(Clone, Copy, Debug, PartialEq, Eq, Structural)]
pub enum Variant {
    /// A game preview, either starting side.
    Game { layout: FrontDisplayLayout, white_on_right: bool },
    /// A beep-test preview (white on the left only).
    Beep { layout: FrontDisplayLayout },
}

impl Variant {
    pub open spec fn spec_layout(self) -> FrontDisplayLayout {
        match self {
            Variant::Game { layout, .. } => layout,
            Variant::Beep { layout } => layout,
        }
    }

    pub open spec fn stem(self) -> Seq<char> {
        match self {
            Variant::Game { layout, white_on_right } => stem_of(layout) + "-"@ + side_of(
                white_on_right,
            ),
            Variant::Beep { layout } => "beep-"@ + stem_of(layout),
        }
    }

    pub fn layout(self) -> (r: FrontDisplayLayout)
        ensures
            r == self.spec_layout(),
    {
        match self {
            Variant::Game { layout, .. } => layout,
            Variant::Beep { layout } => layout,
        }
    }

    /// The preview's filename (no extension).
    pub fn file_stem(self) -> (r: String)
        ensures
            r@ == self.stem(),
    {
        match self {
            Variant::Game { layout, white_on_right } => file_stem(layout, white_on_right),
            Variant::Beep { layout } => String::from_str("beep-").concat(layout_stem(layout)),
        }
    }
}

/// The five layouts in picker order.
pub open spec fn layouts() -> Seq<FrontDisplayLayout> {
    seq![
        FrontDisplayLayout::Default,
        FrontDisplayLayout::Classic,
        FrontDisplayLayout::BigTime,
        FrontDisplayLayout::Corners,
        FrontDisplayLayout::ScoresOnly,
    ]
}

/// Every preview: for each layout a game preview with white on the left and
/// one with white on the right, then a beep-test preview for each layout.
pub open spec fn all_variants() -> Seq<Variant> {
    Seq::new(
        15,
        |i: int|
            if i < 10 {
                Variant::Game { layout: layouts()[i / 2], white_on_right: i % 2 == 1 }
            } else {
                Variant::Beep { layout: layouts()[i - 10] }
            },
    )
}

pub fn variants() -> (r: Vec<Variant>)
    ensures
        r@ == all_variants(),
{
    let layouts_arr: [FrontDisplayLayout; 5] = [
        FrontDisplayLayout::Default,
        FrontDisplayLayout::Classic,
        FrontDisplayLayout::BigTime,
        FrontDisplayLayout::Corners,
        FrontDisplayLayout::ScoresOnly,
    ];
    assert(layouts_arr@ =~= layouts());
    let mut out: Vec<Variant> = Vec::new();
    let mut k: usize = 0;
    while k < 5
        invariant
            0 <= k <= 5,
            layouts_arr@ == layouts(),
            out@ == all_variants().take(2 * k as int),
        decreases 5 - k,
    {
        out.push(Variant::Game { layout: layouts_arr[k], white_on_right: false });
        out.push(Variant::Game { layout: layouts_arr[k], white_on_right: true });
        k = k + 1;
        assert(out@ =~= all_variants().take(2 * k as int));
    }
    k = 0;
    while k < 5
        invariant
            0 <= k <= 5,
            layouts_arr@ == layouts(),
            out@ == all_variants().take(10 + k as int),
        decreases 5 - k,
    {
        out.push(Variant::Beep { layout: layouts_arr[k] });
        k = k + 1;
        assert(out@ =~= all_variants().take(10 + k as int));
    }
    assert(all_variants().take(15) =~= all_variants());
    out
}

/// The previews cover every case once: fifteen of them, no two alike, a
/// game preview for each layout and each starting side, and a beep-test
/// preview for each layout.
pub proof fn lemma_every_preview_once(l: FrontDisplayLayout, white_on_right: bool)
    ensures
        all_variants().len() == 15,
        forall|i: int, j: int|
            0 <= i < j < 15 ==> #[trigger] all_variants()[i] != #[trigger] all_variants()[j],
        all_variants()[2 * (l.index() as int) + (if white_on_right {
            1int
        } else {
            0
        })] == (Variant::Game { layout: l, white_on_right }),
        all_variants()[10 + l.index() as int] == (Variant::Beep { layout: l }),
{
    assert forall|i: int, j: int|
        0 <= i < j < 15 implies #[trigger] all_variants()[i] != #[trigger] all_variants()[j] by {
        if i < 10 && j < 10 {
            if i / 2 != j / 2 {
                assert(layouts()[i / 2] != layouts()[j / 2]);
            }
        } else if i >= 10 && j >= 10 {
            assert(layouts()[i - 10] != layouts()[j - 10]);
        }
    }
}

} // verus!
