//! The refbox settings: modes, game sources, the portal and custom-site
//! entries, the per-site-and-event access-key store, and the migration of an
//! old settings file.

use crate::beep_test::{BeepTest, BeepTestPreset, OldBeepTest};
use crate::sim_frame::FrontDisplayLayout;
use crate::sound::{str_is, OldSoundSettings, SoundSettings};
use crate::tournament_manager::{GameConfig, OldGame};
use vstd::prelude::*;

verus! {

/// The kind of game the refbox runs.
#[derive(Debug, Clone, Copy, PartialEq, Eq, Structural)]
pub enum Mode {
    Hockey6V6,
    Hockey3V3,
    Rugby,
    BeepTest,
}

/// Where the refbox gets its games.
#[derive(Debug, Clone, Copy, PartialEq, Eq, Structural)]
pub enum GameSource {
    Manual,
    Portal,
    Custom,
}

/// Which remote source to return to when leaving `Manual`.
#[derive(Debug, Clone, Copy, PartialEq, Eq, Structural)]
pub enum RemoteSource {
    Portal,
    Custom,
}

impl Mode {
    /// The mode a name stands for: the variant whose name it is.
    pub open spec fn named(s: Seq<char>) -> Option<Mode> {
        if s == "Hockey6V6"@ {
            Some(Mode::Hockey6V6)
        } else if s == "Hockey3V3"@ {
            Some(Mode::Hockey3V3)
        } else if s == "Rugby"@ {
            Some(Mode::Rugby)
        } else if s == "BeepTest"@ {
            Some(Mode::BeepTest)
        } else {
            None
        }
    }

    pub fn from_name(s: &str) -> (r: Option<Mode>)
        ensures
            r == Mode::named(s@),
    {
        if str_is(s, "Hockey6V6") {
            Some(Mode::Hockey6V6)
        } else if str_is(s, "Hockey3V3") {
            Some(Mode::Hockey3V3)
        } else if str_is(s, "Rugby") {
            Some(Mode::Rugby)
        } else if str_is(s, "BeepTest") {
            Some(Mode::BeepTest)
        } else {
            None
        }
    }
}

impl GameSource {
    pub open spec fn named(s: Seq<char>) -> Option<GameSource> {
        if s == "Manual"@ {
            Some(GameSource::Manual)
        } else if s == "Portal"@ {
            Some(GameSource::Portal)
        } else if s == "Custom"@ {
            Some(GameSource::Custom)
        } else {
            None
        }
    }

    pub fn from_name(s: &str) -> (r: Option<GameSource>)
        ensures
            r == GameSource::named(s@),
    {
        if str_is(s, "Manual") {
            Some(GameSource::Manual)
        } else if str_is(s, "Portal") {
            Some(GameSource::Portal)
        } else if str_is(s, "Custom") {
            Some(GameSource::Custom)
        } else {
            None
        }
    }
}

impl RemoteSource {
    pub open spec fn named(s: Seq<char>) -> Option<RemoteSource> {
        if s == "Portal"@ {
            Some(RemoteSource::Portal)
        } else if s == "Custom"@ {
            Some(RemoteSource::Custom)
        } else {
            None
        }
    }

    pub fn from_name(s: &str) -> (r: Option<RemoteSource>)
        ensures
            r == RemoteSource::named(s@),
    {
        if str_is(s, "Portal") {
            Some(RemoteSource::Portal)
        } else if str_is(s, "Custom") {
            Some(RemoteSource::Custom)
        } else {
            None
        }
    }
}

pub open spec fn layout_named(s: Seq<char>) -> Option<FrontDisplayLayout> {
    if s == "Default"@ {
        Some(FrontDisplayLayout::Default)
    } else if s == "Classic"@ {
        Some(FrontDisplayLayout::Classic)
    } else if s == "BigTime"@ {
        Some(FrontDisplayLayout::BigTime)
    } else if s == "Corners"@ {
        Some(FrontDisplayLayout::Corners)
    } else if s == "ScoresOnly"@ {
        Some(FrontDisplayLayout::ScoresOnly)
    } else {
        None
    }
}

/// The layout with this exact variant name, if any.
pub fn layout_from_name(s: &str) -> (r: Option<FrontDisplayLayout>)
    ensures
        r == layout_named(s@),
{
    if str_is(s, "Default") {
        Some(FrontDisplayLayout::Default)
    } else if str_is(s, "Classic") {
        Some(FrontDisplayLayout::Classic)
    } else if str_is(s, "BigTime") {
        Some(FrontDisplayLayout::BigTime)
    } else if str_is(s, "Corners") {
        Some(FrontDisplayLayout::Corners)
    } else if str_is(s, "ScoresOnly") {
        Some(FrontDisplayLayout::ScoresOnly)
    } else {
        None
    }
}

/// The screen and the display panel: where the window opens, which side
/// White plays on, and the panel brightness by name (the display knows which
/// names it takes).
#[derive(Clone, Debug, PartialEq, Eq)]
pub struct Hardware {
    pub screen_x: i32,
    pub screen_y: i32,
    pub white_on_right: bool,
    pub brightness: String,
}

/// The hardware table of an old settings file, as read: each value when it
/// has the expected type.
#[derive(Debug, Clone, Default)]
pub struct OldHardware {
    pub screen_x: Option<i64>,
    pub screen_y: Option<i64>,
    pub white_on_right: Option<bool>,
    pub brightness: Option<String>,
}

/// An old integer when it fits an `i32`, else the default.
pub open spec fn i32_or(v: Option<i64>, d: i32) -> i32 {
    match v {
        Some(n) => if i32::MIN <= n && n <= i32::MAX {
            n as i32
        } else {
            d
        },
        None => d,
    }
}

fn parse_i32(v: Option<i64>, d: i32) -> (r: i32)
    ensures
        r == i32_or(v, d),
{
    match v {
        Some(n) => if i32::MIN as i64 <= n && n <= i32::MAX as i64 {
            n as i32
        } else {
            d
        },
        None => d,
    }
}

impl Hardware {
    /// The defaults: the window at (945, 691), White on the left, low
    /// brightness.
    pub open spec fn is_default(&self) -> bool {
        &&& self.screen_x == 945
        &&& self.screen_y == 691
        &&& !self.white_on_right
        &&& self.brightness@ == "Low"@
    }

    /// Whether this is the hardware entry an old settings table holds: each
    /// value present with the expected type (and, for the coordinates,
    /// fitting an `i32`) replaces its default.
    pub open spec fn migrated_from(&self, old: OldHardware) -> bool {
        &&& self.screen_x == i32_or(old.screen_x, 945)
        &&& self.screen_y == i32_or(old.screen_y, 691)
        &&& self.white_on_right == match old.white_on_right {
            Some(b) => b,
            None => false,
        }
        &&& self.brightness@ == match old.brightness {
            Some(b) => b@,
            None => "Low"@,
        }
    }

    /// The hardware entry an old settings table holds.
    pub fn migrate(old: &OldHardware) -> (r: Hardware)
        ensures
            r.migrated_from(*old),
    {
        Hardware {
            screen_x: parse_i32(old.screen_x, 945),
            screen_y: parse_i32(old.screen_y, 691),
            white_on_right: match old.white_on_right {
                Some(b) => b,
                None => false,
            },
            brightness: match &old.brightness {
                Some(b) => b.clone(),
                None => String::from_str("Low"),
            },
        }
    }
}

impl Default for Hardware {
    fn default() -> (r: Hardware)
        ensures
            r.is_default(),
    {
        Hardware {
            screen_x: 945,
            screen_y: 691,
            white_on_right: false,
            brightness: String::from_str("Low"),
        }
    }
}

/// The UWH Portal entry: only the legacy single-slot key, still read and
/// written back while non-empty, never used.
#[derive(Clone, Debug, Default, PartialEq, Eq)]
pub struct UwhPortal {
    pub token: String,
}

/// A third-party site standing in for the UWH Portal.
#[derive(Clone, Debug, Default, PartialEq, Eq)]
pub struct CustomSite {
    pub url: String,
    pub token: String,
}

impl UwhPortal {
    /// The entry an old settings table holds: its token when it is a string.
    pub fn migrate(token: Option<String>) -> (r: UwhPortal)
        ensures
            r.token@ == match token {
                Some(t) => t@,
                None => Seq::<char>::empty(),
            },
    {
        match token {
            Some(t) => UwhPortal { token: t },
            None => UwhPortal { token: String::new() },
        }
    }
}

impl CustomSite {
    /// The entry an old settings table holds: its url and token when they
    /// are strings.
    pub fn migrate(url: Option<String>, token: Option<String>) -> (r: CustomSite)
        ensures
            r.url@ == match url {
                Some(t) => t@,
                None => Seq::<char>::empty(),
            },
            r.token@ == match token {
                Some(t) => t@,
                None => Seq::<char>::empty(),
            },
    {
        let url = match url {
            Some(u) => u,
            None => String::new(),
        };
        let token = match token {
            Some(t) => t,
            None => String::new(),
        };
        CustomSite { url, token }
    }
}

/// One saved access key, filed against the exact site (normalised base URL)
/// and event that issued it.
#[derive(Clone, Debug, PartialEq, Eq)]
pub struct AccessKey {
    pub site: String,
    pub event: String,
    pub key: String,
}

impl View for AccessKey {
    type V = (Seq<char>, Seq<char>, Seq<char>);

    open spec fn view(&self) -> (Seq<char>, Seq<char>, Seq<char>) {
        (self.site@, self.event@, self.key@)
    }
}

/// The views of a list of keys.
pub open spec fn key_views(keys: Seq<AccessKey>) -> Seq<(Seq<char>, Seq<char>, Seq<char>)> {
    keys.map_values(|k: AccessKey| k@)
}

/// Position of the first key filed for `site` and `event` at or after `k`.
pub open spec fn key_position_from(
    keys: Seq<(Seq<char>, Seq<char>, Seq<char>)>,
    site: Seq<char>,
    event: Seq<char>,
    k: int,
) -> Option<int>
    decreases keys.len() - k,
{
    if k < 0 || k >= keys.len() {
        None
    } else if keys[k].0 == site && keys[k].1 == event {
        Some(k)
    } else {
        key_position_from(keys, site, event, k + 1)
    }
}

/// The key held for `site` and `event`: the first filed for that pair, unless
/// it is empty (an empty key is no credential).
pub open spec fn key_lookup(
    keys: Seq<(Seq<char>, Seq<char>, Seq<char>)>,
    site: Seq<char>,
    event: Seq<char>,
) -> Option<Seq<char>> {
    match key_position_from(keys, site, event, 0) {
        Some(i) => if keys[i].2.len() > 0 {
            Some(keys[i].2)
        } else {
            None
        },
        None => None,
    }
}

/// The store after filing `key` for `site` and `event`: the first key filed
/// for that pair is replaced, or the key is added at the end.
pub open spec fn key_stored(
    keys: Seq<(Seq<char>, Seq<char>, Seq<char>)>,
    site: Seq<char>,
    event: Seq<char>,
    key: Seq<char>,
) -> Seq<(Seq<char>, Seq<char>, Seq<char>)> {
    match key_position_from(keys, site, event, 0) {
        Some(i) => keys.update(i, (site, event, key)),
        None => keys.push((site, event, key)),
    }
}

proof fn lemma_key_position_from(
    keys: Seq<(Seq<char>, Seq<char>, Seq<char>)>,
    site: Seq<char>,
    event: Seq<char>,
    k: int,
)
    requires
        0 <= k <= keys.len(),
    ensures
        match key_position_from(keys, site, event, k) {
            Some(i) => k <= i < keys.len() && keys[i].0 == site && keys[i].1 == event && forall|
                j: int,
            | k <= j < i ==> !(keys[j].0 == site && keys[j].1 == event),
            None => forall|j: int|
                k <= j < keys.len() ==> !(keys[j].0 == site && keys[j].1 == event),
        },
    decreases keys.len() - k,
{
    if k < keys.len() {
        lemma_key_position_from(keys, site, event, k + 1);
    }
}

proof fn lemma_key_position_determined(
    keys: Seq<(Seq<char>, Seq<char>, Seq<char>)>,
    site: Seq<char>,
    event: Seq<char>,
    i: int,
)
    requires
        0 <= i < keys.len(),
        keys[i].0 == site && keys[i].1 == event,
        forall|j: int| 0 <= j < i ==> !(keys[j].0 == site && keys[j].1 == event),
    ensures
        key_position_from(keys, site, event, 0) == Some(i),
{
    lemma_key_position_from(keys, site, event, 0);
}

/// Position of the key filed for `site` and `event`, if any.
fn find_key(keys: &[AccessKey], site: &str, event: &str) -> (r: Option<usize>)
    ensures
        match r {
            Some(i) => i < keys@.len() && key_position_from(key_views(keys@), site@, event@, 0)
                == Some(i as int),
            None => key_position_from(key_views(keys@), site@, event@, 0) is None,
        },
{
    let ghost kv = key_views(keys@);
    proof {
        lemma_key_position_from(kv, site@, event@, 0);
    }
    let mut i: usize = 0;
    while i < keys.len()
        invariant
            0 <= i <= keys@.len(),
            kv == key_views(keys@),
            forall|j: int| 0 <= j < i ==> !(kv[j].0 == site@ && kv[j].1 == event@),
        decreases keys@.len() - i,
    {
        if str_is(keys[i].site.as_str(), site) && str_is(keys[i].event.as_str(), event) {
            proof {
                lemma_key_position_determined(kv, site@, event@, i as int);
            }
            return Some(i);
        }
        i = i + 1;
    }
    proof {
        lemma_key_position_from(kv, site@, event@, 0);
        if key_position_from(kv, site@, event@, 0) is Some {
            let p = key_position_from(kv, site@, event@, 0)->0;
            assert(kv[p].0 == site@ && kv[p].1 == event@);
        }
    }
    None
}

/// The key filed for exactly this site and event, from any list of keys: the
/// first filed for that pair, unless it is empty.
pub fn access_key_in<'a>(keys: &'a [AccessKey], site: &str, event: &str) -> (r: Option<&'a str>)
    ensures
        match r {
            Some(k) => key_lookup(key_views(keys@), site@, event@) == Some(k@),
            None => key_lookup(key_views(keys@), site@, event@) is None,
        },
{
    match find_key(keys, site, event) {
        Some(i) => {
            let k = keys[i].key.as_str();
            if k.unicode_len() > 0 {
                Some(k)
            } else {
                None
            }
        },
        None => None,
    }
}

/// The settings the library holds.
#[derive(Clone, Debug, PartialEq, Eq)]
pub struct Config {
    pub mode: Mode,
    pub hide_time: bool,
    pub collect_scorer_cap_num: bool,
    pub track_fouls_and_warnings: bool,
    pub show_behind_schedule_time: bool,
    pub confirm_score: bool,
    pub audible_countdown: bool,
    pub source: GameSource,
    pub remembered_remote: RemoteSource,
    pub game: GameConfig,
    pub beep_test: BeepTest,
    pub hardware: Hardware,
    pub uwhportal: UwhPortal,
    pub custom_site: CustomSite,
    pub sound: SoundSettings,
    /// The chosen interface language, by name; none follows the system.
    pub language: Option<String>,
    /// The chosen display theme, by name; none is the interface's default.
    pub display_mode: Option<String>,
    pub front_display_layout: FrontDisplayLayout,
    pub access_keys: Vec<AccessKey>,
}

impl Config {
    /// The key held for this exact site and event, if any.
    pub fn access_key_for(&self, site: &str, event: &str) -> (r: Option<&str>)
        ensures
            match r {
                Some(k) => key_lookup(key_views(self.access_keys@), site@, event@) == Some(k@),
                None => key_lookup(key_views(self.access_keys@), site@, event@) is None,
            },
    {
        access_key_in(self.access_keys.as_slice(), site, event)
    }

    /// Files a key against the site and event that issued it, replacing any
    /// key already held for that pair; nothing else changes.
    pub fn store_access_key(&mut self, site: &str, event: &str, key: String)
        ensures
            key_views(final(self).access_keys@) == key_stored(
                key_views(old(self).access_keys@),
                site@,
                event@,
                key@,
            ),
    {
        let ghost kv = key_views(self.access_keys@);
        match find_key(self.access_keys.as_slice(), site, event) {
            Some(i) => {
                proof {
                    lemma_key_position_from(kv, site@, event@, 0);
                    assert(kv[i as int] == self.access_keys@[i as int]@);
                }
                let old_key = self.access_keys.remove(i);
                let entry = AccessKey { site: old_key.site, event: old_key.event, key };
                self.access_keys.insert(i, entry);
                assert(key_views(self.access_keys@) =~= kv.update(
                    i as int,
                    (site@, event@, key@),
                ));
            },
            None => {
                self.access_keys.push(
                    AccessKey { site: String::from_str(site), event: String::from_str(event), key },
                );
                assert(key_views(self.access_keys@) =~= kv.push((site@, event@, key@)));
            },
        }
    }
}

/// After filing a non-empty key for a site and event, that key is the one
/// held for them.
pub proof fn lemma_stored_key_is_found(
    keys: Seq<(Seq<char>, Seq<char>, Seq<char>)>,
    site: Seq<char>,
    event: Seq<char>,
    key: Seq<char>,
)
    requires
        key.len() > 0,
    ensures
        key_lookup(key_stored(keys, site, event, key), site, event) == Some(key),
{
    lemma_key_position_from(keys, site, event, 0);
    let s = key_stored(keys, site, event, key);
    match key_position_from(keys, site, event, 0) {
        Some(i) => {
            lemma_key_position_determined(s, site, event, i);
        },
        None => {
            lemma_key_position_determined(s, site, event, keys.len() as int);
        },
    }
}

/// Filing a key for one site and event changes nothing held for any other
/// pair: keys are not shared across events on one site, nor across sites
/// with a colliding event id.
pub proof fn lemma_store_keeps_other_pairs(
    keys: Seq<(Seq<char>, Seq<char>, Seq<char>)>,
    site: Seq<char>,
    event: Seq<char>,
    key: Seq<char>,
    other_site: Seq<char>,
    other_event: Seq<char>,
)
    requires
        !(other_site == site && other_event == event),
    ensures
        key_lookup(key_stored(keys, site, event, key), other_site, other_event) == key_lookup(
            keys,
            other_site,
            other_event,
        ),
{
    lemma_key_position_from(keys, site, event, 0);
    lemma_key_position_from(keys, other_site, other_event, 0);
    let s = key_stored(keys, site, event, key);
    lemma_key_position_from(s, other_site, other_event, 0);
    match key_position_from(keys, other_site, other_event, 0) {
        Some(i) => {
            lemma_key_position_determined(s, other_site, other_event, i);
        },
        None => {
            assert forall|j: int| 0 <= j < s.len() implies !(s[j].0 == other_site && s[j].1
                == other_event) by {
                if j < keys.len() {
                    if key_position_from(keys, site, event, 0) == Some(j) {
                    } else {
                        assert(s[j] == keys[j]);
                    }
                }
            }
        },
    }
}

/// Filing twice for one site and event replaces rather than appends: when a
/// key is already filed for the pair, the store keeps its size.
pub proof fn lemma_store_replaces(
    keys: Seq<(Seq<char>, Seq<char>, Seq<char>)>,
    site: Seq<char>,
    event: Seq<char>,
    key: Seq<char>,
)
    ensures
        key_position_from(keys, site, event, 0) is Some ==> key_stored(keys, site, event, key).len()
            == keys.len(),
        key_position_from(keys, site, event, 0) is None ==> key_stored(keys, site, event, key).len()
            == keys.len() + 1,
        key_position_from(key_stored(keys, site, event, key), site, event, 0) is Some,
{
    lemma_key_position_from(keys, site, event, 0);
    let s = key_stored(keys, site, event, key);
    match key_position_from(keys, site, event, 0) {
        Some(i) => {
            lemma_key_position_determined(s, site, event, i);
        },
        None => {
            lemma_key_position_determined(s, site, event, keys.len() as int);
        },
    }
}

/// An old settings file, as read: each value present with the expected type,
/// each sub-table present as a table; `access_keys` holds every entry that
/// parsed as a key (none when the value is absent or not an array).
#[derive(Debug, Clone, Default)]
pub struct OldConfig {
    pub mode: Option<String>,
    pub hide_time: Option<bool>,
    pub collect_scorer_cap_num: Option<bool>,
    pub track_fouls_and_warnings: Option<bool>,
    pub show_behind_schedule_time: Option<bool>,
    pub confirm_score: Option<bool>,
    pub audible_countdown: Option<bool>,
    pub source: Option<String>,
    pub remembered_remote: Option<String>,
    pub game: Option<OldGame>,
    pub beep_test: Option<OldBeepTest>,
    pub hardware: Option<OldHardware>,
    pub uwhportal_token: Option<Option<String>>,
    pub custom_site: Option<(Option<String>, Option<String>)>,
    pub sound: Option<OldSoundSettings>,
    pub language: Option<String>,
    pub display_mode: Option<String>,
    pub front_display_layout: Option<String>,
    pub access_keys: Vec<AccessKey>,
}

/// A named value when the name is one, else the default.
pub open spec fn named_or<T>(v: Option<T>, d: T) -> T {
    match v {
        Some(x) => x,
        None => d,
    }
}

impl Config {
    /// The defaults: hockey 6v6, time shown, scorer cap numbers collected,
    /// fouls and warnings not tracked, behind-schedule time shown, scores
    /// confirmed, no audible countdown, manual games (remembering the
    /// Portal), the standard game timing, the referee 25m beep test, the
    /// default hardware, empty site entries, default sound, no chosen
    /// language or theme, the default display layout and no access keys.
    pub open spec fn is_default(&self) -> bool {
        &&& self.mode == Mode::Hockey6V6
        &&& !self.hide_time
        &&& self.collect_scorer_cap_num
        &&& !self.track_fouls_and_warnings
        &&& self.show_behind_schedule_time
        &&& self.confirm_score
        &&& !self.audible_countdown
        &&& self.source == GameSource::Manual
        &&& self.remembered_remote == RemoteSource::Portal
        &&& self.game == GameConfig::standard()
        &&& self.beep_test.pre_secs == 10
        &&& self.beep_test.levels@ == BeepTestPreset::Ref25.preset_levels()
        &&& self.hardware.is_default()
        &&& self.uwhportal.token@.len() == 0
        &&& self.custom_site.url@.len() == 0
        &&& self.custom_site.token@.len() == 0
        &&& self.sound.is_default()
        &&& self.language is None
        &&& self.display_mode is None
        &&& self.front_display_layout == FrontDisplayLayout::Default
        &&& self.access_keys@.len() == 0
    }

    /// The settings an old settings file holds: every value present with the
    /// expected type (and, for names, naming a variant) replaces its default;
    /// sub-tables migrate field by field.
    pub fn migrate(old: OldConfig) -> (r: Config)
        ensures
            r.mode == match old.mode {
                Some(s) => named_or(Mode::named(s@), Mode::Hockey6V6),
                None => Mode::Hockey6V6,
            },
            r.hide_time == named_or(old.hide_time, false),
            r.collect_scorer_cap_num == named_or(old.collect_scorer_cap_num, true),
            r.track_fouls_and_warnings == named_or(old.track_fouls_and_warnings, false),
            r.show_behind_schedule_time == named_or(old.show_behind_schedule_time, true),
            r.confirm_score == named_or(old.confirm_score, true),
            r.audible_countdown == named_or(old.audible_countdown, false),
            r.source == match old.source {
                Some(s) => named_or(GameSource::named(s@), GameSource::Manual),
                None => GameSource::Manual,
            },
            r.remembered_remote == match old.remembered_remote {
                Some(s) => named_or(RemoteSource::named(s@), RemoteSource::Portal),
                None => RemoteSource::Portal,
            },
            r.game == match old.game {
                Some(g) => GameConfig::migrated(g),
                None => GameConfig::standard(),
            },
            match old.beep_test {
                Some(b) => r.beep_test.migrated_from(b),
                None => r.beep_test.pre_secs == 10 && r.beep_test.levels@
                    == BeepTestPreset::Ref25.preset_levels(),
            },
            match old.hardware {
                Some(h) => r.hardware.migrated_from(h),
                None => r.hardware.is_default(),
            },
            r.uwhportal.token@ == match old.uwhportal_token {
                Some(Some(t)) => t@,
                _ => Seq::<char>::empty(),
            },
            r.custom_site.url@ == match old.custom_site {
                Some((Some(u), _)) => u@,
                _ => Seq::<char>::empty(),
            },
            r.custom_site.token@ == match old.custom_site {
                Some((_, Some(t))) => t@,
                _ => Seq::<char>::empty(),
            },
            match old.sound {
                Some(s) => r.sound.migrated_from(s),
                None => r.sound.is_default(),
            },
            r.language == old.language,
            r.display_mode == old.display_mode,
            r.front_display_layout == match old.front_display_layout {
                Some(s) => named_or(layout_named(s@), FrontDisplayLayout::Default),
                None => FrontDisplayLayout::Default,
            },
            r.access_keys@ == old.access_keys@,
    {
        let mode = match &old.mode {
            Some(s) => match Mode::from_name(s.as_str()) {
                Some(m) => m,
                None => Mode::Hockey6V6,
            },
            None => Mode::Hockey6V6,
        };
        let source = match &old.source {
            Some(s) => match GameSource::from_name(s.as_str()) {
                Some(m) => m,
                None => GameSource::Manual,
            },
            None => GameSource::Manual,
        };
        let remembered_remote = match &old.remembered_remote {
            Some(s) => match RemoteSource::from_name(s.as_str()) {
                Some(m) => m,
                None => RemoteSource::Portal,
            },
            None => RemoteSource::Portal,
        };
        let front_display_layout = match &old.front_display_layout {
            Some(s) => match layout_from_name(s.as_str()) {
                Some(m) => m,
                None => FrontDisplayLayout::Default,
            },
            None => FrontDisplayLayout::Default,
        };
        let game = match &old.game {
            Some(g) => GameConfig::migrate(g),
            None => GameConfig::default(),
        };
        let hardware = match &old.hardware {
            Some(h) => Hardware::migrate(h),
            None => Hardware::default(),
        };
        let beep_test = match &old.beep_test {
            Some(b) => BeepTest::migrate(b),
            None => BeepTest::default(),
        };
        let uwhportal = match old.uwhportal_token {
            Some(t) => UwhPortal::migrate(t),
            None => UwhPortal { token: String::new() },
        };
        let custom_site = match old.custom_site {
            Some((u, t)) => CustomSite::migrate(u, t),
            None => CustomSite { url: String::new(), token: String::new() },
        };
        let sound = match &old.sound {
            Some(s) => SoundSettings::migrate(s),
            None => SoundSettings::default(),
        };
        Config {
            mode,
            hide_time: match old.hide_time {
                Some(x) => x,
                None => false,
            },
            collect_scorer_cap_num: match old.collect_scorer_cap_num {
                Some(x) => x,
                None => true,
            },
            track_fouls_and_warnings: match old.track_fouls_and_warnings {
                Some(x) => x,
                None => false,
            },
            show_behind_schedule_time: match old.show_behind_schedule_time {
                Some(x) => x,
                None => true,
            },
            confirm_score: match old.confirm_score {
                Some(x) => x,
                None => true,
            },
            audible_countdown: match old.audible_countdown {
                Some(x) => x,
                None => false,
            },
            source,
            remembered_remote,
            game,
            beep_test,
            hardware,
            uwhportal,
            custom_site,
            sound,
            language: old.language,
            display_mode: old.display_mode,
            front_display_layout,
            access_keys: old.access_keys,
        }
    }
}

impl Default for Config {
    fn default() -> (r: Config)
        ensures
            r.is_default(),
    {
        Config {
            mode: Mode::Hockey6V6,
            hide_time: false,
            collect_scorer_cap_num: true,
            track_fouls_and_warnings: false,
            show_behind_schedule_time: true,
            confirm_score: true,
            audible_countdown: false,
            source: GameSource::Manual,
            remembered_remote: RemoteSource::Portal,
            game: GameConfig::default(),
            beep_test: BeepTest::default(),
            hardware: Hardware::default(),
            uwhportal: UwhPortal { token: String::new() },
            custom_site: CustomSite { url: String::new(), token: String::new() },
            sound: SoundSettings::default(),
            language: None,
            display_mode: None,
            front_display_layout: FrontDisplayLayout::Default,
            access_keys: Vec::new(),
        }
    }
}

/// A value read from an old file replaces the default; an absent one leaves
/// the default.
pub proof fn lemma_present_value_replaces_default<T>(x: T, d: T)
    ensures
        named_or(Some(x), d) == x,
        named_or(None::<T>, d) == d,
{
}

/// Migrating the old hardware entry keeps each value the old table holds
/// with the expected type (screen coordinates when they fit an `i32`) and
/// takes the default for each that is absent: the window at (945, 691),
/// White on the left, low brightness.
pub proof fn lemma_hardware_migration_keeps_each_value(r: Hardware, old: OldHardware)
    requires
        r.migrated_from(old),
    ensures
        r.screen_x == match old.screen_x {
            Some(n) => if -2147483648 <= n <= 2147483647 {
                n as i32
            } else {
                945
            },
            None => 945,
        },
        r.screen_y == match old.screen_y {
            Some(n) => if -2147483648 <= n <= 2147483647 {
                n as i32
            } else {
                691
            },
            None => 691,
        },
        r.white_on_right == match old.white_on_right {
            Some(b) => b,
            None => false,
        },
        old.brightness matches Some(b) ==> r.brightness@ == b@,
        old.brightness is None ==> r.brightness@ == "Low"@,
{
}

} // verus!
