//! The remembered live portal link: which event, court and game this machine
//! is linked to, and when it was last active.

use crate::settings::Mode;
use crate::utc_time::UtcTime;
use vstd::prelude::*;

verus! {

/// How recent the last session must be, in nanoseconds (120 hours), to
/// restore the link on startup when the clock is trusted.
pub const FRESHNESS_WINDOW_NANOS: i128 = 432_000_000_000_000;

/// Name of the note file inside the configuration directory.
pub const LINK_FILE_NAME: &'static str = "portal_link.json";

/// Name of the temporary file a note write goes through.
pub const LINK_TMP_FILE_NAME: &'static str = "portal_link.json.tmp";

/// The newest note version this code writes; older ones are read too.
pub const LINK_CURRENT_VERSION: u32 = 2;

/// Which site a note belongs to.
#[derive(Debug, Clone, PartialEq, Eq)]
pub enum NoteSite {
    Portal,
    /// A third-party site, identified by the whole address it was configured
    /// with.
    Custom { address: String },
}

impl Default for NoteSite {
    fn default() -> (r: NoteSite)
        ensures
            r is Portal,
    {
        NoteSite::Portal
    }
}

/// The remembered live portal link.
#[derive(Debug, Clone, PartialEq, Eq)]
pub struct LinkSessionFile {
    pub version: u32,
    pub event_id: String,
    pub court: Option<String>,
    /// The game the operator is on right now; absent when nothing is next.
    pub current_game: Option<String>,
    /// The game most recently played to a recorded result on this court.
    pub last_played: Option<String>,
    /// The scheduled start of `last_played`.
    pub last_played_start: Option<UtcTime>,
    pub mode: Mode,
    pub site: NoteSite,
    pub last_active: UtcTime,
}

pub open spec fn fresh(last_active: UtcTime, now: UtcTime, window: i128) -> bool {
    now@ >= last_active@ && now@ - last_active@ <= window
}

/// True iff `now` is within `window` nanoseconds after `last_active`; a `now`
/// before `last_active` (the clock moved backwards) is not fresh.
pub fn is_fresh(last_active: UtcTime, now: UtcTime, window: i128) -> (r: bool)
    ensures
        r == fresh(last_active, now, window),
{
    let d = now.nanos_since(&last_active);
    d >= 0 && d <= window
}

/// What a note read from disk becomes: a parsed note of this or an older
/// version is used (older notes migrate in place); a note that did not parse
/// (`None`) or has a newer version is ignored. The second component says
/// whether the file must be set aside.
pub fn note_from_loaded(parsed: Option<LinkSessionFile>) -> (r: (Option<LinkSessionFile>, bool))
    ensures
        match parsed {
            Some(n) => if n.version <= LINK_CURRENT_VERSION {
                r.0 == Some(n) && !r.1
            } else {
                r.0 is None && r.1
            },
            None => r.0 is None && r.1,
        },
{
    match parsed {
        Some(n) => if n.version <= LINK_CURRENT_VERSION {
            (Some(n), false)
        } else {
            (None, true)
        },
        None => (None, true),
    }
}

/// A link is fresh from its last activity until the window has passed, and
/// never before it: fresh at the moment itself (for any window that is not
/// negative), not fresh once the clock reads earlier or later than the
/// window allows, and fresh at every moment between the last activity and a
/// fresh one.
pub proof fn lemma_freshness_window(last_active: UtcTime, now: UtcTime, mid: UtcTime, window: i128)
    ensures
        window >= 0 ==> fresh(last_active, last_active, window),
        now@ < last_active@ ==> !fresh(last_active, now, window),
        now@ > last_active@ + window ==> !fresh(last_active, now, window),
        fresh(last_active, now, window) && last_active@ <= mid@ <= now@ ==> fresh(
            last_active,
            mid,
            window,
        ),
{
}

} // verus!
