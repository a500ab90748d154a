//! Which layout the player-facing display window renders, and its one-byte
//! wire encoding.

use vstd::prelude::*;

verus! {

/// Which front-display layout the player-facing display window renders.
/// `Default` is the 256x64 LED-panel mirror; the others are full-screen
/// scoreboards usable only when no physical panel is connected.
#[derive(Debug, Clone, Copy, PartialEq, Eq, Structural)]
pub enum FrontDisplayLayout {
    Default,
    Classic,
    BigTime,
    Corners,
    ScoresOnly,
}

impl FrontDisplayLayout {
    /// Position of the layout in the picker's cycle order.
    pub open spec fn index(self) -> nat {
        match self {
            FrontDisplayLayout::Default => 0,
            FrontDisplayLayout::Classic => 1,
            FrontDisplayLayout::BigTime => 2,
            FrontDisplayLayout::Corners => 3,
            FrontDisplayLayout::ScoresOnly => 4,
        }
    }

    /// The layout at position `i` of the cycle order, `Default` for any other
    /// value.
    pub open spec fn at(i: int) -> FrontDisplayLayout {
        if i == 1 {
            FrontDisplayLayout::Classic
        } else if i == 2 {
            FrontDisplayLayout::BigTime
        } else if i == 3 {
            FrontDisplayLayout::Corners
        } else if i == 4 {
            FrontDisplayLayout::ScoresOnly
        } else {
            FrontDisplayLayout::Default
        }
    }

    /// The layout after this one in the picker's cycle order.
    pub open spec fn successor(self) -> FrontDisplayLayout {
        FrontDisplayLayout::at(((self.index() + 1) % 5) as int)
    }

    /// Cycle order for the picker (wraps).
    pub fn next(self) -> (r: FrontDisplayLayout)
        ensures
            r == self.successor(),
    {
        match self {
            FrontDisplayLayout::Default => FrontDisplayLayout::Classic,
            FrontDisplayLayout::Classic => FrontDisplayLayout::BigTime,
            FrontDisplayLayout::BigTime => FrontDisplayLayout::Corners,
            FrontDisplayLayout::Corners => FrontDisplayLayout::ScoresOnly,
            FrontDisplayLayout::ScoresOnly => FrontDisplayLayout::Default,
        }
    }

    /// The one-byte wire encoding: the cycle position.
    pub fn to_u8(self) -> (r: u8)
        ensures
            r as nat == self.index(),
    {
        match self {
            FrontDisplayLayout::Default => 0,
            FrontDisplayLayout::Classic => 1,
            FrontDisplayLayout::BigTime => 2,
            FrontDisplayLayout::Corners => 3,
            FrontDisplayLayout::ScoresOnly => 4,
        }
    }

    /// Decodes the wire byte; any unknown value falls back to `Default`.
    pub fn from_u8(v: u8) -> (r: FrontDisplayLayout)
        ensures
            r == FrontDisplayLayout::at(v as int),
    {
        match v {
            1 => FrontDisplayLayout::Classic,
            2 => FrontDisplayLayout::BigTime,
            3 => FrontDisplayLayout::Corners,
            4 => FrontDisplayLayout::ScoresOnly,
            _ => FrontDisplayLayout::Default,
        }
    }
}

impl Default for FrontDisplayLayout {
    fn default() -> (r: FrontDisplayLayout)
        ensures
            r == FrontDisplayLayout::Default,
    {
        FrontDisplayLayout::Default
    }
}

/// Decoding gives back what encoding wrote, for every layout.
pub proof fn lemma_layout_u8_round_trip(l: FrontDisplayLayout)
    ensures
        FrontDisplayLayout::at(l.index() as int) == l,
        l.index() < 5,
{
}

/// The picker cycle comes back to the starting layout after five steps,
/// passing through every layout on the way.
pub proof fn lemma_layout_cycle_wraps(l: FrontDisplayLayout)
    ensures
        l.successor().successor().successor().successor().successor() == l,
        l.successor() != l,
        l.successor().successor() != l,
        l.successor().successor().successor() != l,
        l.successor().successor().successor().successor() != l,
{
}

/// The layout actually shown during a beep test: forced to `Default` whenever
/// a real LED panel is connected, else the operator's session choice.
pub fn effective_beep_layout(has_led_panel: bool, session_layout: FrontDisplayLayout) -> (r:
    FrontDisplayLayout)
    ensures
        r == (if has_led_panel {
            FrontDisplayLayout::Default
        } else {
            session_layout
        }),
{
    if has_led_panel {
        FrontDisplayLayout::Default
    } else {
        session_layout
    }
}


/// A display-feed frame: the encoded panel payload plus a one-byte layout
/// selector in front of it. Used only on the path to the display window; the
/// panel itself keeps receiving the bare payload.
#[derive(Debug, Clone, PartialEq, Eq)]
pub struct SimFrame {
    pub layout: FrontDisplayLayout,
    pub payload: Vec<u8>,
}

impl SimFrame {
    /// The frame on the wire: the layout byte, then the payload unchanged.
    pub fn encode(&self) -> (r: Vec<u8>)
        ensures
            r@ == seq![self.layout.index() as u8] + self.payload@,
    {
        let mut out: Vec<u8> = Vec::new();
        out.push(self.layout.to_u8());
        let mut i: usize = 0;
        while i < self.payload.len()
            invariant
                0 <= i <= self.payload@.len(),
                out@ == seq![self.layout.index() as u8] + self.payload@.take(i as int),
            decreases self.payload@.len() - i,
        {
            out.push(self.payload[i]);
            i = i + 1;
            assert(out@ =~= seq![self.layout.index() as u8] + self.payload@.take(i as int));
        }
        assert(self.payload@.take(i as int) =~= self.payload@);
        out
    }

    /// Reads a frame back: the first byte selects the layout (unknown values
    /// fall back to `Default`), the rest is the payload.
    pub fn decode(bytes: &[u8]) -> (r: SimFrame)
        requires
            bytes@.len() >= 1,
        ensures
            r.layout == FrontDisplayLayout::at(bytes@[0] as int),
            r.payload@ == bytes@.skip(1),
    {
        let layout = FrontDisplayLayout::from_u8(bytes[0]);
        let mut payload: Vec<u8> = Vec::new();
        let mut i: usize = 1;
        while i < bytes.len()
            invariant
                1 <= i <= bytes@.len(),
                payload@ == bytes@.subrange(1, i as int),
            decreases bytes@.len() - i,
        {
            payload.push(bytes[i]);
            i = i + 1;
            assert(payload@ =~= bytes@.subrange(1, i as int));
        }
        assert(payload@ =~= bytes@.skip(1));
        SimFrame { layout, payload }
    }
}

/// Decoding an encoded frame gives back the same layout and payload.
pub proof fn lemma_frame_round_trip(layout: FrontDisplayLayout, payload: Seq<u8>)
    ensures
        ({
            let bytes = seq![layout.index() as u8] + payload;
            &&& FrontDisplayLayout::at(bytes[0] as int) == layout
            &&& bytes.skip(1) == payload
        }),
{
    let bytes = seq![layout.index() as u8] + payload;
    assert(bytes.skip(1) =~= payload);
}

} // verus!
