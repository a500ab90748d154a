//! The game clock and game state of a tournament: periods, the game clock and
//! timeout clock, timeouts, scores and penalties.
//!
//! Instants and durations are whole nanoseconds: durations as plain lengths,
//! instants as monotonic-clock readings. Where a sum of two times would pass
//! `u64::MAX` (some 584 years), the sum is held at `u64::MAX`.

use vstd::prelude::*;
use crate::utc_time::UtcTime;
use crate::decimal_text::{decimal, digit_str, digit_text, decimal_string};

verus! {

/// The sum of two times, held at `u64::MAX`.
pub open spec fn sat(x: int) -> u64 {
    if x > u64::MAX {
        u64::MAX
    } else {
        x as u64
    }
}

fn sat_add(a: u64, b: u64) -> (r: u64)
    ensures
        r == sat(a + b),
{
    a.saturating_add(b)
}

/// A team.
#[derive(Debug, Clone, Copy, PartialEq, Eq, Structural)]
pub enum Color {
    Black,
    White,
}

/// The periods of a game, in the order they are played.
#[derive(Debug, Clone, Copy, PartialEq, Eq, Structural)]
pub enum GamePeriod {
    BetweenGames,
    FirstHalf,
    HalfTime,
    SecondHalf,
    PreOvertime,
    OvertimeFirstHalf,
    OvertimeHalfTime,
    OvertimeSecondHalf,
    PreSuddenDeath,
    SuddenDeath,
}

impl GamePeriod {
    /// Position of the period in playing order.
    pub open spec fn ord(self) -> int {
        match self {
            GamePeriod::BetweenGames => 0,
            GamePeriod::FirstHalf => 1,
            GamePeriod::HalfTime => 2,
            GamePeriod::SecondHalf => 3,
            GamePeriod::PreOvertime => 4,
            GamePeriod::OvertimeFirstHalf => 5,
            GamePeriod::OvertimeHalfTime => 6,
            GamePeriod::OvertimeSecondHalf => 7,
            GamePeriod::PreSuddenDeath => 8,
            GamePeriod::SuddenDeath => 9,
        }
    }

    /// The period at a position of the playing order.
    pub open spec fn at(i: int) -> GamePeriod {
        if i == 1 {
            GamePeriod::FirstHalf
        } else if i == 2 {
            GamePeriod::HalfTime
        } else if i == 3 {
            GamePeriod::SecondHalf
        } else if i == 4 {
            GamePeriod::PreOvertime
        } else if i == 5 {
            GamePeriod::OvertimeFirstHalf
        } else if i == 6 {
            GamePeriod::OvertimeHalfTime
        } else if i == 7 {
            GamePeriod::OvertimeSecondHalf
        } else if i == 8 {
            GamePeriod::PreSuddenDeath
        } else if i == 9 {
            GamePeriod::SuddenDeath
        } else {
            GamePeriod::BetweenGames
        }
    }

    pub fn index(self) -> (r: usize)
        ensures
            r == self.ord(),
    {
        match self {
            GamePeriod::BetweenGames => 0,
            GamePeriod::FirstHalf => 1,
            GamePeriod::HalfTime => 2,
            GamePeriod::SecondHalf => 3,
            GamePeriod::PreOvertime => 4,
            GamePeriod::OvertimeFirstHalf => 5,
            GamePeriod::OvertimeHalfTime => 6,
            GamePeriod::OvertimeSecondHalf => 7,
            GamePeriod::PreSuddenDeath => 8,
            GamePeriod::SuddenDeath => 9,
        }
    }

    /// The period after this one; none after sudden death.
    pub open spec fn spec_next(self) -> Option<GamePeriod> {
        if self.ord() < 9 {
            Some(GamePeriod::at(self.ord() + 1))
        } else {
            None
        }
    }

    pub fn next_period(self) -> (r: Option<GamePeriod>)
        ensures
            r == self.spec_next(),
    {
        match self {
            GamePeriod::BetweenGames => Some(GamePeriod::FirstHalf),
            GamePeriod::FirstHalf => Some(GamePeriod::HalfTime),
            GamePeriod::HalfTime => Some(GamePeriod::SecondHalf),
            GamePeriod::SecondHalf => Some(GamePeriod::PreOvertime),
            GamePeriod::PreOvertime => Some(GamePeriod::OvertimeFirstHalf),
            GamePeriod::OvertimeFirstHalf => Some(GamePeriod::OvertimeHalfTime),
            GamePeriod::OvertimeHalfTime => Some(GamePeriod::OvertimeSecondHalf),
            GamePeriod::OvertimeSecondHalf => Some(GamePeriod::PreSuddenDeath),
            GamePeriod::PreSuddenDeath => Some(GamePeriod::SuddenDeath),
            GamePeriod::SuddenDeath => None,
        }
    }

    /// Whether this is a period of play (a half, an overtime half, or sudden
    /// death).
    pub open spec fn is_play(self) -> bool {
        self == GamePeriod::FirstHalf || self == GamePeriod::SecondHalf || self
            == GamePeriod::OvertimeFirstHalf || self == GamePeriod::OvertimeSecondHalf || self
            == GamePeriod::SuddenDeath
    }

    /// Time elapsed in this period between two clock readings: the clock
    /// counts down in every period but sudden death, where it counts up.
    pub open spec fn spec_time_between(self, start: u64, end: u64) -> Option<u64> {
        if self == GamePeriod::SuddenDeath {
            if end >= start {
                Some((end - start) as u64)
            } else {
                None
            }
        } else {
            if start >= end {
                Some((start - end) as u64)
            } else {
                None
            }
        }
    }

    pub fn time_between(self, start: u64, end: u64) -> (r: Option<u64>)
        ensures
            r == self.spec_time_between(start, end),
    {
        match self {
            GamePeriod::SuddenDeath => end.checked_sub(start),
            _ => start.checked_sub(end),
        }
    }
}

/// The game timing rules the clock follows, durations in nanoseconds.
#[derive(Debug, Clone, Copy, PartialEq, Eq)]
pub struct GameConfig {
    pub team_timeouts_per_half: u16,
    pub team_timeout_duration: u64,
    pub half_play_duration: u64,
    pub half_time_duration: u64,
    pub pre_overtime_break: u64,
    pub ot_half_play_duration: u64,
    pub ot_half_time_duration: u64,
    pub pre_sudden_death_duration: u64,
    pub nominal_break: u64,
    pub minimum_break: u64,
    pub post_game_duration: u64,
    pub overtime_allowed: bool,
    pub sudden_death_allowed: bool,
}

/// The game table of an old settings file, as read: each value when it is
/// an integer (durations in whole seconds) or a boolean.
#[derive(Debug, Clone, Copy, Default)]
pub struct OldGame {
    pub team_timeouts_per_half: Option<i64>,
    pub team_timeout_duration: Option<i64>,
    pub half_play_duration: Option<i64>,
    pub half_time_duration: Option<i64>,
    pub pre_overtime_break: Option<i64>,
    pub ot_half_play_duration: Option<i64>,
    pub ot_half_time_duration: Option<i64>,
    pub pre_sudden_death_duration: Option<i64>,
    pub nominal_break: Option<i64>,
    pub minimum_break: Option<i64>,
    pub post_game_duration: Option<i64>,
    pub overtime_allowed: Option<bool>,
    pub sudden_death_allowed: Option<bool>,
}

/// Whole seconds from an old settings file, as nanoseconds, when they are not
/// negative and the nanoseconds fit; else the default.
pub open spec fn old_secs_or(v: Option<i64>, d: u64) -> u64 {
    match v {
        Some(n) => if 0 <= n && n <= 18_446_744_073 {
            (n * 1_000_000_000) as u64
        } else {
            d
        },
        None => d,
    }
}

fn secs_or(v: Option<i64>, d: u64) -> (r: u64)
    ensures
        r == old_secs_or(v, d),
{
    match v {
        Some(n) => if 0 <= n && n <= 18_446_744_073 {
            (n as u64) * 1_000_000_000
        } else {
            d
        },
        None => d,
    }
}

impl GameConfig {
    /// The standard timing rules: one 60 s team timeout per half, 15 minute
    /// halves with 3 minutes of half time, 5 minute overtime halves with 3
    /// minutes of break before and between them, a minute before sudden
    /// death (both allowed), a 15 minute nominal break between games of at
    /// least 4 minutes, and 2 minutes after a game.
    pub open spec fn standard() -> GameConfig {
        GameConfig {
            team_timeouts_per_half: 1,
            team_timeout_duration: 60_000_000_000,
            half_play_duration: 900_000_000_000,
            half_time_duration: 180_000_000_000,
            pre_overtime_break: 180_000_000_000,
            ot_half_play_duration: 300_000_000_000,
            ot_half_time_duration: 180_000_000_000,
            pre_sudden_death_duration: 60_000_000_000,
            nominal_break: 900_000_000_000,
            minimum_break: 240_000_000_000,
            post_game_duration: 120_000_000_000,
            overtime_allowed: true,
            sudden_death_allowed: true,
        }
    }

    /// The timing rules an old settings table holds: each value present with
    /// the expected type that fits replaces the standard one.
    pub open spec fn migrated(old: OldGame) -> GameConfig {
        let d = GameConfig::standard();
        GameConfig {
            team_timeouts_per_half: match old.team_timeouts_per_half {
                Some(n) => if 0 <= n && n <= 65535 {
                    n as u16
                } else {
                    d.team_timeouts_per_half
                },
                None => d.team_timeouts_per_half,
            },
            team_timeout_duration: old_secs_or(old.team_timeout_duration, d.team_timeout_duration),
            half_play_duration: old_secs_or(old.half_play_duration, d.half_play_duration),
            half_time_duration: old_secs_or(old.half_time_duration, d.half_time_duration),
            pre_overtime_break: old_secs_or(old.pre_overtime_break, d.pre_overtime_break),
            ot_half_play_duration: old_secs_or(old.ot_half_play_duration, d.ot_half_play_duration),
            ot_half_time_duration: old_secs_or(old.ot_half_time_duration, d.ot_half_time_duration),
            pre_sudden_death_duration: old_secs_or(old.pre_sudden_death_duration, d.pre_sudden_death_duration),
            nominal_break: old_secs_or(old.nominal_break, d.nominal_break),
            minimum_break: old_secs_or(old.minimum_break, d.minimum_break),
            post_game_duration: old_secs_or(old.post_game_duration, d.post_game_duration),
            overtime_allowed: match old.overtime_allowed {
                Some(b) => b,
                None => d.overtime_allowed,
            },
            sudden_death_allowed: match old.sudden_death_allowed {
                Some(b) => b,
                None => d.sudden_death_allowed,
            },
        }
    }

    /// The timing rules an old settings table holds.
    pub fn migrate(old: &OldGame) -> (r: GameConfig)
        ensures
            r == GameConfig::migrated(*old),
    {
        let d = GameConfig::default();
        GameConfig {
            team_timeouts_per_half: match old.team_timeouts_per_half {
                Some(n) => if 0 <= n && n <= 65535 {
                    n as u16
                } else {
                    d.team_timeouts_per_half
                },
                None => d.team_timeouts_per_half,
            },
            team_timeout_duration: secs_or(old.team_timeout_duration, d.team_timeout_duration),
            half_play_duration: secs_or(old.half_play_duration, d.half_play_duration),
            half_time_duration: secs_or(old.half_time_duration, d.half_time_duration),
            pre_overtime_break: secs_or(old.pre_overtime_break, d.pre_overtime_break),
            ot_half_play_duration: secs_or(old.ot_half_play_duration, d.ot_half_play_duration),
            ot_half_time_duration: secs_or(old.ot_half_time_duration, d.ot_half_time_duration),
            pre_sudden_death_duration: secs_or(old.pre_sudden_death_duration, d.pre_sudden_death_duration),
            nominal_break: secs_or(old.nominal_break, d.nominal_break),
            minimum_break: secs_or(old.minimum_break, d.minimum_break),
            post_game_duration: secs_or(old.post_game_duration, d.post_game_duration),
            overtime_allowed: match old.overtime_allowed {
                Some(b) => b,
                None => d.overtime_allowed,
            },
            sudden_death_allowed: match old.sudden_death_allowed {
                Some(b) => b,
                None => d.sudden_death_allowed,
            },
        }
    }
}

impl Default for GameConfig {
    fn default() -> (r: GameConfig)
        ensures
            r == GameConfig::standard(),
    {
        GameConfig {
            team_timeouts_per_half: 1,
            team_timeout_duration: 60_000_000_000,
            half_play_duration: 900_000_000_000,
            half_time_duration: 180_000_000_000,
            pre_overtime_break: 180_000_000_000,
            ot_half_play_duration: 300_000_000_000,
            ot_half_time_duration: 180_000_000_000,
            pre_sudden_death_duration: 60_000_000_000,
            nominal_break: 900_000_000_000,
            minimum_break: 240_000_000_000,
            post_game_duration: 120_000_000_000,
            overtime_allowed: true,
            sudden_death_allowed: true,
        }
    }
}

impl GameConfig {
    /// The length of a period; between games and sudden death have none.
    pub open spec fn duration_of(self, p: GamePeriod) -> Option<u64> {
        match p {
            GamePeriod::BetweenGames => None,
            GamePeriod::FirstHalf => Some(self.half_play_duration),
            GamePeriod::HalfTime => Some(self.half_time_duration),
            GamePeriod::SecondHalf => Some(self.half_play_duration),
            GamePeriod::PreOvertime => Some(self.pre_overtime_break),
            GamePeriod::OvertimeFirstHalf => Some(self.ot_half_play_duration),
            GamePeriod::OvertimeHalfTime => Some(self.ot_half_time_duration),
            GamePeriod::OvertimeSecondHalf => Some(self.ot_half_play_duration),
            GamePeriod::PreSuddenDeath => Some(self.pre_sudden_death_duration),
            GamePeriod::SuddenDeath => None,
        }
    }

    /// Whether penalty time runs in a period: in the halves, in the
    /// overtime halves when overtime is played, and in sudden death when it
    /// is played.
    pub open spec fn runs_penalties(self, p: GamePeriod) -> bool {
        match p {
            GamePeriod::FirstHalf | GamePeriod::SecondHalf => true,
            GamePeriod::OvertimeFirstHalf | GamePeriod::OvertimeSecondHalf => self.overtime_allowed,
            GamePeriod::SuddenDeath => self.sudden_death_allowed,
            _ => false,
        }
    }

    /// The length of a period under these rules.
    pub fn period_duration(&self, p: GamePeriod) -> (r: Option<u64>)
        ensures
            r == self.duration_of(p),
    {
        match p {
            GamePeriod::BetweenGames => None,
            GamePeriod::FirstHalf => Some(self.half_play_duration),
            GamePeriod::HalfTime => Some(self.half_time_duration),
            GamePeriod::SecondHalf => Some(self.half_play_duration),
            GamePeriod::PreOvertime => Some(self.pre_overtime_break),
            GamePeriod::OvertimeFirstHalf => Some(self.ot_half_play_duration),
            GamePeriod::OvertimeHalfTime => Some(self.ot_half_time_duration),
            GamePeriod::OvertimeSecondHalf => Some(self.ot_half_play_duration),
            GamePeriod::PreSuddenDeath => Some(self.pre_sudden_death_duration),
            GamePeriod::SuddenDeath => None,
        }
    }

    /// Whether penalty time runs in a period under these rules.
    pub fn period_runs_penalties(&self, p: GamePeriod) -> (r: bool)
        ensures
            r == self.runs_penalties(p),
    {
        match p {
            GamePeriod::FirstHalf | GamePeriod::SecondHalf => true,
            GamePeriod::OvertimeFirstHalf | GamePeriod::OvertimeSecondHalf => self.overtime_allowed,
            GamePeriod::SuddenDeath => self.sudden_death_allowed,
            _ => false,
        }
    }

    /// Time elapsed in period `p` when its clock reads `time`: the reading
    /// itself in sudden death, the period's length less the reading
    /// otherwise.
    pub open spec fn elapsed_at(self, p: GamePeriod, time: u64) -> Option<u64> {
        if p == GamePeriod::SuddenDeath {
            Some(time)
        } else {
            match self.duration_of(p) {
                Some(d) => if d >= time {
                    Some((d - time) as u64)
                } else {
                    None
                },
                None => None,
            }
        }
    }

    pub fn time_elapsed_at(&self, p: GamePeriod, time: u64) -> (r: Option<u64>)
        ensures
            r == self.elapsed_at(p, time),
    {
        match p {
            GamePeriod::SuddenDeath => Some(time),
            _ => match self.period_duration(p) {
                Some(d) => d.checked_sub(time),
                None => None,
            },
        }
    }
}

/// A clock: stopped at a reading, counting down from a reading taken at a
/// start instant, or counting up from one.
#[derive(Debug, Clone, Copy, PartialEq, Eq, Structural)]
pub enum ClockState {
    Stopped { clock_time: u64 },
    CountingDown { start_time: u64, time_remaining_at_start: u64 },
    CountingUp { start_time: u64, time_at_start: u64 },
}

impl ClockState {
    pub open spec fn running(self) -> bool {
        !(self is Stopped)
    }

    /// The reading at `now`; none when `now` is before the start, or when a
    /// countdown has passed zero.
    pub open spec fn reading(self, now: u64) -> Option<u64> {
        match self {
            ClockState::CountingDown { start_time, time_remaining_at_start } => if now
                >= start_time && time_remaining_at_start >= now - start_time {
                Some((time_remaining_at_start - (now - start_time)) as u64)
            } else {
                None
            },
            ClockState::CountingUp { start_time, time_at_start } => if now >= start_time {
                Some(sat((now - start_time) + time_at_start))
            } else {
                None
            },
            ClockState::Stopped { clock_time } => Some(clock_time),
        }
    }

    pub fn is_running(&self) -> (r: bool)
        ensures
            r == self.running(),
    {
        match self {
            ClockState::CountingDown { .. } | ClockState::CountingUp { .. } => true,
            ClockState::Stopped { .. } => false,
        }
    }

    pub fn clock_time(&self, now: u64) -> (r: Option<u64>)
        ensures
            r == self.reading(now),
    {
        match self {
            ClockState::CountingDown { start_time, time_remaining_at_start } => {
                match now.checked_sub(*start_time) {
                    Some(s) => time_remaining_at_start.checked_sub(s),
                    None => None,
                }
            },
            ClockState::CountingUp { start_time, time_at_start } => {
                match now.checked_sub(*start_time) {
                    Some(s) => Some(sat_add(s, *time_at_start)),
                    None => None,
                }
            },
            ClockState::Stopped { clock_time } => Some(*clock_time),
        }
    }

    /// Whether the reading at `now`, if any, has at most 65535 whole seconds,
    /// so that a timeout display can show it.
    pub open spec fn display_fits(self, now: u64) -> bool {
        match self.reading(now) {
            Some(t) => t / 1_000_000_000 <= 65535,
            None => true,
        }
    }

    /// Whole seconds of the reading at `now`, for a timeout display: 65535
    /// when there is no reading.
    pub open spec fn display_secs(self, now: u64) -> u16 {
        match self.reading(now) {
            Some(t) => (t / 1_000_000_000) as u16,
            None => 65535,
        }
    }

    pub fn as_secs_u16(&self, now: u64) -> (r: u16)
        requires
            self.display_fits(now),
        ensures
            r == self.display_secs(now),
    {
        match self.clock_time(now) {
            Some(t) => (t / 1_000_000_000) as u16,
            None => 65535,
        }
    }
}

/// A timeout as the display shows it, with the timeout clock's whole seconds.
#[derive(Debug, Clone, Copy, PartialEq, Eq, Structural)]
pub enum TimeoutSnapshot {
    NoTimeout,
    Black(u16),
    White(u16),
    Ref(u16),
    PenaltyShot(u16),
}

/// The timeout in progress, with its clock.
#[derive(Debug, Clone, Copy, PartialEq, Eq, Structural)]
pub enum TimeoutState {
    NoTimeout,
    Black(ClockState),
    White(ClockState),
    Ref(ClockState),
    PenaltyShot(ClockState),
}

impl TimeoutState {
    pub open spec fn snapshot(self, now: u64) -> TimeoutSnapshot {
        match self {
            TimeoutState::NoTimeout => TimeoutSnapshot::NoTimeout,
            TimeoutState::Black(cs) => TimeoutSnapshot::Black(cs.display_secs(now)),
            TimeoutState::White(cs) => TimeoutSnapshot::White(cs.display_secs(now)),
            TimeoutState::Ref(cs) => TimeoutSnapshot::Ref(cs.display_secs(now)),
            TimeoutState::PenaltyShot(cs) => TimeoutSnapshot::PenaltyShot(cs.display_secs(now)),
        }
    }

    /// Whether the timeout's clock, if there is a timeout, can be shown at
    /// `now`.
    pub open spec fn display_fits(self, now: u64) -> bool {
        match self.clock() {
            Some(cs) => cs.display_fits(now),
            None => true,
        }
    }

    pub fn as_snapshot(&self, now: u64) -> (r: TimeoutSnapshot)
        requires
            self.display_fits(now),
        ensures
            r == self.snapshot(now),
    {
        match self {
            TimeoutState::NoTimeout => TimeoutSnapshot::NoTimeout,
            TimeoutState::Black(cs) => TimeoutSnapshot::Black(cs.as_secs_u16(now)),
            TimeoutState::White(cs) => TimeoutSnapshot::White(cs.as_secs_u16(now)),
            TimeoutState::Ref(cs) => TimeoutSnapshot::Ref(cs.as_secs_u16(now)),
            TimeoutState::PenaltyShot(cs) => TimeoutSnapshot::PenaltyShot(cs.as_secs_u16(now)),
        }
    }

    /// The timeout's clock, if there is a timeout.
    pub open spec fn clock(self) -> Option<ClockState> {
        match self {
            TimeoutState::NoTimeout => None,
            TimeoutState::Black(cs) => Some(cs),
            TimeoutState::White(cs) => Some(cs),
            TimeoutState::Ref(cs) => Some(cs),
            TimeoutState::PenaltyShot(cs) => Some(cs),
        }
    }
}

/// Why an action was refused.
#[derive(Debug, Clone, Copy, PartialEq, Eq, Structural)]
pub enum TournamentManagerError {
    ClockIsRunning,
    WrongGamePeriod(TimeoutSnapshot, GamePeriod),
    TooManyTeamTimeouts(Color),
    AlreadyInTimeout(TimeoutSnapshot),
    NotInRefTimeout,
    NotInPenaltyShot,
    NotInBlackTimeout,
    NotInWhiteTimeout,
    NotInTimeout,
    NeedsUpdate,
    InvalidNowValue,
    AlreadyInPlayPeriod,
    GameInProgress,
    TooManyPenalties(usize),
    InvalidIndex(Color, usize),
    InvalidState,
    NoNextGameInfo,
}

} // verus!

verus! {

/// The kinds of penalty.
#[derive(Debug, Clone, Copy, PartialEq, Eq, Structural)]
pub enum PenaltyKind {
    OneMinute,
    TwoMinute,
    FiveMinute,
    TotalDismissal,
}

impl PenaltyKind {
    /// The length of the penalty in nanoseconds; a total dismissal has none.
    pub open spec fn length(self) -> Option<u64> {
        match self {
            PenaltyKind::OneMinute => Some(60_000_000_000),
            PenaltyKind::TwoMinute => Some(120_000_000_000),
            PenaltyKind::FiveMinute => Some(300_000_000_000),
            PenaltyKind::TotalDismissal => None,
        }
    }

    pub fn as_duration(self) -> (r: Option<u64>)
        ensures
            r == self.length(),
    {
        match self {
            PenaltyKind::OneMinute => Some(60_000_000_000),
            PenaltyKind::TwoMinute => Some(120_000_000_000),
            PenaltyKind::FiveMinute => Some(300_000_000_000),
            PenaltyKind::TotalDismissal => None,
        }
    }
}

impl Default for PenaltyKind {
    fn default() -> (r: PenaltyKind)
        ensures
            r == PenaltyKind::OneMinute,
    {
        PenaltyKind::OneMinute
    }
}

/// How long a penalty still has to run, as the display shows it.
#[derive(Debug, Clone, Copy, PartialEq, Eq, Structural)]
pub enum PenaltyTime {
    Seconds(u16),
    TotalDismissal,
}

/// A penalty as the display shows it.
#[derive(Debug, Clone, Copy, PartialEq, Eq, Structural)]
pub struct PenaltySnapshot {
    pub player_number: u8,
    pub time: PenaltyTime,
}

/// A penalty: its kind, the player, and the period and game-clock reading at
/// which it started.
#[derive(Debug, Clone, Copy, PartialEq, Eq, Structural)]
pub struct Penalty {
    pub kind: PenaltyKind,
    pub player_number: u8,
    pub start_period: GamePeriod,
    pub start_time: u64,
}

/// Penalty time that runs over the whole periods at positions `from` up to
/// (not including) `to`: the lengths of those that run penalties, none when
/// such a period has no length.
pub open spec fn run_sum(cfg: GameConfig, from: int, to: int) -> Option<u64>
    decreases to - from,
{
    if to <= from {
        Some(0)
    } else {
        match run_sum(cfg, from, to - 1) {
            None => None,
            Some(acc) => if cfg.runs_penalties(GamePeriod::at(to - 1)) {
                match cfg.duration_of(GamePeriod::at(to - 1)) {
                    Some(d) => Some(sat(acc + d)),
                    None => None,
                }
            } else {
                Some(acc)
            },
        }
    }
}

impl Penalty {
    /// Penalty time served by the reading `cur_time` of period `cur_per`; none
    /// when the reading is impossible or the period comes before the
    /// penalty's.
    pub open spec fn elapsed(self, cur_per: GamePeriod, cur_time: u64, cfg: GameConfig) -> Option<
        u64,
    > {
        if cur_per.ord() == self.start_period.ord() {
            match cur_per.spec_time_between(self.start_time, cur_time) {
                Some(t) => if cfg.runs_penalties(cur_per) {
                    Some(t)
                } else {
                    Some(0)
                },
                None => None,
            }
        } else if cur_per.ord() > self.start_period.ord() {
            let first: u64 = if cfg.runs_penalties(self.start_period) {
                self.start_time
            } else {
                0
            };
            match run_sum(cfg, self.start_period.ord() + 1, cur_per.ord()) {
                None => None,
                Some(mid) => {
                    let before = sat(first + mid);
                    if cfg.runs_penalties(cur_per) {
                        match cfg.elapsed_at(cur_per, cur_time) {
                            Some(e) => Some(sat(before + e)),
                            None => None,
                        }
                    } else {
                        Some(before)
                    }
                },
            }
        } else {
            None
        }
    }

    /// Penalty time still to serve: zero once the game it started in is over;
    /// none for a total dismissal or an impossible reading.
    pub open spec fn remaining(self, cur_per: GamePeriod, cur_time: u64, cfg: GameConfig) -> Option<
        u64,
    > {
        if cur_per == GamePeriod::BetweenGames && self.start_period != GamePeriod::BetweenGames {
            Some(0)
        } else {
            match (self.kind.length(), self.elapsed(cur_per, cur_time, cfg)) {
                (Some(total), Some(e)) => Some(
                    if total >= e {
                        (total - e) as u64
                    } else {
                        0
                    },
                ),
                _ => None,
            }
        }
    }

    /// Whether the penalty is served; a total dismissal never is.
    pub open spec fn complete(self, cur_per: GamePeriod, cur_time: u64, cfg: GameConfig) -> Option<
        bool,
    > {
        if self.kind == PenaltyKind::TotalDismissal {
            Some(false)
        } else {
            match self.remaining(cur_per, cur_time, cfg) {
                Some(r) => Some(r == 0),
                None => None,
            }
        }
    }

    pub open spec fn snapshot(self, cur_per: GamePeriod, cur_time: u64, cfg: GameConfig) -> Option<
        PenaltySnapshot,
    > {
        match self.remaining(cur_per, cur_time, cfg) {
            Some(d) => Some(
                PenaltySnapshot {
                    player_number: self.player_number,
                    time: PenaltyTime::Seconds((d / 1_000_000_000) as u16),
                },
            ),
            None => if self.kind == PenaltyKind::TotalDismissal {
                Some(
                    PenaltySnapshot {
                        player_number: self.player_number,
                        time: PenaltyTime::TotalDismissal,
                    },
                )
            } else {
                None
            },
        }
    }

    pub fn time_elapsed(&self, cur_per: GamePeriod, cur_time: u64, config: &GameConfig) -> (r:
        Option<u64>)
        ensures
            r == self.elapsed(cur_per, cur_time, *config),
    {
        let cur = cur_per.index();
        let start = self.start_period.index();
        if cur == start {
            match cur_per.time_between(self.start_time, cur_time) {
                Some(t) => if config.period_runs_penalties(cur_per) {
                    Some(t)
                } else {
                    Some(0)
                },
                None => None,
            }
        } else if cur > start {
            let mut elapsed: u64 = if config.period_runs_penalties(self.start_period) {
                self.start_time
            } else {
                0
            };
            let ghost first = elapsed;
            let mut i: usize = start + 1;
            while i < cur
                invariant
                    start + 1 <= i <= cur,
                    cur == cur_per.ord(),
                    start == self.start_period.ord(),
                    cur <= 9,
                    run_sum(*config, start + 1, i as int) matches Some(m) && elapsed == sat(
                        first + m,
                    ),
                decreases cur - i,
            {
                let p = period_at(i);
                if config.period_runs_penalties(p) {
                    match config.period_duration(p) {
                        Some(d) => {
                            elapsed = sat_add(elapsed, d);
                        },
                        None => {
                            proof {
                                lemma_run_sum_stays_none(*config, start + 1, i + 1, cur as int);
                            }
                            return None;
                        },
                    }
                }
                i = i + 1;
            }
            if config.period_runs_penalties(cur_per) {
                match config.time_elapsed_at(cur_per, cur_time) {
                    Some(e) => Some(sat_add(elapsed, e)),
                    None => None,
                }
            } else {
                Some(elapsed)
            }
        } else {
            None
        }
    }

    pub fn time_remaining(&self, cur_per: GamePeriod, cur_time: u64, config: &GameConfig) -> (r:
        Option<u64>)
        ensures
            r == self.remaining(cur_per, cur_time, *config),
    {
        let elapsed = self.time_elapsed(cur_per, cur_time, config);
        let total = self.kind.as_duration();
        if cur_per == GamePeriod::BetweenGames && self.start_period != GamePeriod::BetweenGames {
            Some(0)
        } else {
            match (total, elapsed) {
                (Some(t), Some(e)) => Some(t.saturating_sub(e)),
                _ => None,
            }
        }
    }

    pub fn is_complete(&self, cur_per: GamePeriod, cur_time: u64, config: &GameConfig) -> (r:
        Option<bool>)
        ensures
            r == self.complete(cur_per, cur_time, *config),
    {
        match self.kind {
            PenaltyKind::TotalDismissal => Some(false),
            _ => match self.time_remaining(cur_per, cur_time, config) {
                Some(rem) => Some(rem == 0),
                None => None,
            },
        }
    }

    pub fn as_snapshot(&self, cur_per: GamePeriod, cur_time: u64, config: &GameConfig) -> (r:
        Option<PenaltySnapshot>)
        ensures
            r == self.snapshot(cur_per, cur_time, *config),
    {
        match self.time_remaining(cur_per, cur_time, config) {
            Some(d) => {
                proof {
                    lemma_remaining_at_most_five_minutes(*self, cur_per, cur_time, *config);
                }
                Some(
                    PenaltySnapshot {
                        player_number: self.player_number,
                        time: PenaltyTime::Seconds((d / 1_000_000_000) as u16),
                    },
                )
            },
            None => if self.kind == PenaltyKind::TotalDismissal {
                Some(
                    PenaltySnapshot {
                        player_number: self.player_number,
                        time: PenaltyTime::TotalDismissal,
                    },
                )
            } else {
                None
            },
        }
    }
}

/// A penalty never has more than its own length (at most five minutes) left
/// to serve.
pub proof fn lemma_remaining_at_most_five_minutes(
    pen: Penalty,
    cur_per: GamePeriod,
    cur_time: u64,
    cfg: GameConfig,
)
    ensures
        pen.remaining(cur_per, cur_time, cfg) matches Some(r) ==> r <= 300_000_000_000 && (
        pen.kind.length() matches Some(t) ==> r <= t),
{
}

/// Once the penalty time over a run of periods is unknown, it stays unknown
/// over any longer run.
proof fn lemma_run_sum_stays_none(cfg: GameConfig, from: int, j: int, t: int)
    requires
        from <= j <= t,
        run_sum(cfg, from, j) is None,
    ensures
        run_sum(cfg, from, t) is None,
    decreases t - j,
{
    if t > j {
        lemma_run_sum_stays_none(cfg, from, j, t - 1);
    }
}

/// The period at a position of the playing order.
pub fn period_at(i: usize) -> (r: GamePeriod)
    ensures
        r == GamePeriod::at(i as int),
{
    if i == 1 {
        GamePeriod::FirstHalf
    } else if i == 2 {
        GamePeriod::HalfTime
    } else if i == 3 {
        GamePeriod::SecondHalf
    } else if i == 4 {
        GamePeriod::PreOvertime
    } else if i == 5 {
        GamePeriod::OvertimeFirstHalf
    } else if i == 6 {
        GamePeriod::OvertimeHalfTime
    } else if i == 7 {
        GamePeriod::OvertimeSecondHalf
    } else if i == 8 {
        GamePeriod::PreSuddenDeath
    } else if i == 9 {
        GamePeriod::SuddenDeath
    } else {
        GamePeriod::BetweenGames
    }
}

} // verus!

verus! {

/// The longest time the clock counts down between games: 5 999 999 seconds,
/// the most a long clock display can show.
pub const MAX_TIME_VAL: u64 = 5_999_999_000_000_000;

/// How long a goal stays "recent" on the display: ten seconds of game clock.
pub const RECENT_GOAL_TIME: u64 = 10_000_000_000;

impl GameConfig {
    /// Length of the period after `p`, if there is one and it has a length.
    pub open spec fn next_duration(self, p: GamePeriod) -> Option<u64> {
        match p.spec_next() {
            Some(n) => self.duration_of(n),
            None => None,
        }
    }
}

/// What is known of the next game: its number, its timing rules if they
/// differ, and its scheduled start as a local wall-clock reading (taken as
/// if it were UTC; the manager's time zone offset places it).
#[derive(Debug, Clone, Copy, PartialEq, Eq)]
pub struct NextGameInfo {
    pub number: u32,
    pub timing: Option<GameConfig>,
    pub start_time: Option<UtcTime>,
}

/// Black's and White's values of something.
#[derive(Debug, Clone, Copy, PartialEq, Eq, Default)]
pub struct BlackWhiteBundle<T> {
    pub black: T,
    pub white: T,
}

impl<T> BlackWhiteBundle<T> {
    pub open spec fn at(self, color: Color) -> T {
        match color {
            Color::Black => self.black,
            Color::White => self.white,
        }
    }

    pub fn get(&self, color: Color) -> (r: &T)
        ensures
            *r == self.at(color),
    {
        match color {
            Color::Black => &self.black,
            Color::White => &self.white,
        }
    }
}

/// The state of a `TournamentManager`, as its contracts speak of it.
pub struct TournamentState {
    pub config: GameConfig,
    pub game_number: u32,
    pub current_period: GamePeriod,
    pub clock_state: ClockState,
    pub timeout_state: TimeoutState,
    pub b_timeouts_used: u16,
    pub w_timeouts_used: u16,
    pub b_score: u8,
    pub w_score: u8,
    pub b_penalties: Seq<Penalty>,
    pub w_penalties: Seq<Penalty>,
    pub has_reset: bool,
    pub clock_running_signal: bool,
    pub next_game: Option<NextGameInfo>,
    pub next_scheduled_start: Option<u64>,
    pub reset_game_time: u64,
    pub timezone_offset_secs: i32,
    pub recent_goal: Option<(Color, u8, GamePeriod, u64)>,
}

/// A team timeout's clock never counts up; a referee timeout's or penalty
/// shot's never counts down.
pub open spec fn timeout_clock_ok(ts: TimeoutState) -> bool {
    match ts {
        TimeoutState::Black(cs) => !(cs is CountingUp),
        TimeoutState::White(cs) => !(cs is CountingUp),
        TimeoutState::Ref(cs) => !(cs is CountingDown),
        TimeoutState::PenaltyShot(cs) => !(cs is CountingDown),
        TimeoutState::NoTimeout => true,
    }
}

/// Readings of the clock round up to the next whole second: the instant
/// after `now` at which a counting-up reading `ct` reaches its next second.
pub open spec fn next_second_up(now: u64, ct: u64) -> u64 {
    sat(now + (1_000_000_000 - ct % 1_000_000_000))
}

/// The instant after `now` at which a counting-down reading `ct` reaches its
/// next whole second.
pub open spec fn next_second_down(now: u64, ct: u64) -> u64 {
    sat(now + ct % 1_000_000_000)
}

impl TournamentState {
    pub open spec fn wf(self) -> bool {
        &&& timeout_clock_ok(self.timeout_state)
    }

    pub open spec fn penalties(self, color: Color) -> Seq<Penalty> {
        match color {
            Color::Black => self.b_penalties,
            Color::White => self.w_penalties,
        }
    }

    pub open spec fn with_penalties(self, color: Color, list: Seq<Penalty>) -> TournamentState {
        match color {
            Color::Black => TournamentState { b_penalties: list, ..self },
            Color::White => TournamentState { w_penalties: list, ..self },
        }
    }

    /// Whether the clock that is showing (the timeout clock in a timeout,
    /// the game clock otherwise) is running.
    pub open spec fn running(self) -> bool {
        match self.timeout_state.clock() {
            Some(cs) => cs.running(),
            None => self.clock_state.running(),
        }
    }

    pub open spec fn game_time(self, now: u64) -> Option<u64> {
        self.clock_state.reading(now)
    }

    pub open spec fn timeout_time(self, now: u64) -> Option<u64> {
        match self.timeout_state.clock() {
            Some(cs) => cs.reading(now),
            None => None,
        }
    }

    /// The number of the game that starts next: the announced one between
    /// games, else the one after the current game.
    pub open spec fn next_number(self) -> int {
        if self.current_period == GamePeriod::BetweenGames && self.next_game is Some {
            self.next_game.unwrap().number as int
        } else {
            self.game_number + 1
        }
    }

    pub open spec fn reset(self) -> TournamentState {
        TournamentState {
            b_score: 0,
            w_score: 0,
            b_penalties: Seq::empty(),
            w_penalties: Seq::empty(),
            has_reset: true,
            ..self
        }
    }

    /// Starting the game clock from a stop: counting up in sudden death,
    /// down otherwise. Whether it was stopped comes back.
    pub open spec fn start_game_clock(self, now: u64) -> (TournamentState, bool) {
        match self.clock_state {
            ClockState::Stopped { clock_time } => (
                TournamentState {
                    clock_state: if self.current_period == GamePeriod::SuddenDeath {
                        ClockState::CountingUp { start_time: now, time_at_start: clock_time }
                    } else {
                        ClockState::CountingDown {
                            start_time: now,
                            time_remaining_at_start: clock_time,
                        }
                    },
                    ..self
                },
                true,
            ),
            _ => (self, false),
        }
    }

    /// Stopping the game clock at its reading; refused when it has none.
    pub open spec fn stop_game_clock(self, now: u64) -> (TournamentState, Result<
        bool,
        TournamentManagerError,
    >) {
        if self.clock_state.running() {
            match self.clock_state.reading(now) {
                Some(t) => (
                    TournamentState {
                        clock_state: ClockState::Stopped { clock_time: t },
                        ..self
                    },
                    Ok(true),
                ),
                None => (self, Err(TournamentManagerError::NeedsUpdate)),
            }
        } else {
            (self, Ok(false))
        }
    }
}

} // verus!

verus! {

/// Time from `start` to `now` on a monotonic clock, zero when `now` is
/// earlier.
pub open spec fn since(now: u64, start: u64) -> u64 {
    if now >= start {
        (now - start) as u64
    } else {
        0
    }
}

/// The penalties of `list` that are not yet served at the reading `time` of
/// period `per`, in their order; none when any one's state is unknown.
pub open spec fn culled(list: Seq<Penalty>, per: GamePeriod, time: u64, cfg: GameConfig) -> Option<
    Seq<Penalty>,
>
    decreases list.len(),
{
    if list.len() == 0 {
        Some(Seq::empty())
    } else {
        match culled(list.drop_last(), per, time, cfg) {
            None => None,
            Some(kept) => match list.last().complete(per, time, cfg) {
                None => None,
                Some(true) => Some(kept),
                Some(false) => Some(kept.push(list.last())),
            },
        }
    }
}

/// Searching `list` from position `k` for the first served penalty: `None`
/// when a penalty whose state is unknown comes first, `Some(None)` when no
/// penalty is served.
pub open spec fn first_complete(
    list: Seq<Penalty>,
    k: int,
    per: GamePeriod,
    time: u64,
    cfg: GameConfig,
) -> Option<Option<int>>
    decreases list.len() - k,
{
    if k < 0 || k >= list.len() {
        Some(None)
    } else {
        match list[k].complete(per, time, cfg) {
            None => None,
            Some(true) => Some(Some(k)),
            Some(false) => first_complete(list, k + 1, per, time, cfg),
        }
    }
}

/// Removing served penalties, the first one first, until `list` has at most
/// `limit` entries; refused when too few are served or a state is unknown,
/// with the removals made so far kept.
pub open spec fn limited(
    list: Seq<Penalty>,
    limit: usize,
    per: GamePeriod,
    time: u64,
    cfg: GameConfig,
) -> (Seq<Penalty>, Result<(), TournamentManagerError>)
    decreases list.len(),
{
    if list.len() <= limit {
        (list, Ok(()))
    } else {
        match first_complete(list, 0, per, time, cfg) {
            None => (list, Err(TournamentManagerError::InvalidNowValue)),
            Some(None) => (list, Err(TournamentManagerError::TooManyPenalties(limit))),
            Some(Some(i)) => if 0 <= i < list.len() {
                limited(list.remove(i), limit, per, time, cfg)
            } else {
                (list, Ok(()))
            },
        }
    }
}

impl TournamentState {
    /// When the next game is due to start: its announced wall-clock start
    /// (placed on the monotonic clock through `now` and the wall-clock
    /// reading `wall`, and `now` itself if that start has passed), else the
    /// start scheduled from the last game, else a nominal break from `now`.
    pub open spec fn scheduled_start(self, now: u64, wall: int) -> u64 {
        let announced: Option<UtcTime> = match self.next_game {
            Some(info) => info.start_time,
            None => None,
        };
        match announced {
            Some(st) => {
                let diff = st@ - self.timezone_offset_secs * 1_000_000_000 - wall;
                if diff >= 0 {
                    sat(now + diff)
                } else {
                    now
                }
            },
            None => match self.next_scheduled_start {
                Some(s) => s,
                None => sat(now + self.config.nominal_break),
            },
        }
    }

    /// The between-games countdown measured from `from`: the time left until
    /// the next game's start, at least the minimum break and at most
    /// `MAX_TIME_VAL`.
    pub open spec fn time_to_next_game(self, now: u64, from: u64, wall: int) -> u64 {
        let sched = self.scheduled_start(now, wall);
        let left: u64 = if sched >= from {
            let d = (sched - from) as u64;
            if d >= self.config.minimum_break {
                d
            } else {
                self.config.minimum_break
            }
        } else {
            self.config.minimum_break
        };
        if left <= MAX_TIME_VAL {
            left
        } else {
            MAX_TIME_VAL
        }
    }

    pub open spec fn start_game(self, start: u64) -> TournamentState {
        let s1 = if !self.has_reset {
            self.reset()
        } else {
            self
        };
        let cfg = match s1.next_game {
            Some(info) => match info.timing {
                Some(t) => t,
                None => s1.config,
            },
            None => s1.config,
        };
        let sched = match s1.next_scheduled_start {
            Some(x) => x,
            None => start,
        };
        TournamentState {
            game_number: s1.next_number() as u32,
            config: cfg,
            next_game: None,
            current_period: GamePeriod::FirstHalf,
            b_timeouts_used: 0,
            w_timeouts_used: 0,
            has_reset: false,
            next_scheduled_start: Some(
                sat(sched + 2 * cfg.half_play_duration + cfg.half_time_duration
                    + cfg.nominal_break),
            ),
            ..s1
        }
    }

    /// Ending the game: between games, counting down from the end of the
    /// last period (or `now`) to the next game.
    pub open spec fn end_game(self, now: u64, wall: int) -> TournamentState {
        let game_end = match self.clock_state {
            ClockState::CountingDown { start_time, time_remaining_at_start } => sat(
                start_time + time_remaining_at_start,
            ),
            _ => now,
        };
        let t = self.time_to_next_game(now, game_end, wall);
        TournamentState {
            current_period: GamePeriod::BetweenGames,
            clock_state: ClockState::CountingDown {
                start_time: game_end,
                time_remaining_at_start: t,
            },
            clock_running_signal: if !self.running() {
                true
            } else {
                self.clock_running_signal
            },
            reset_game_time: if t >= self.config.post_game_duration {
                (t - self.config.post_game_duration) as u64
            } else {
                0
            },
            ..self
        }
    }

    /// Removing served penalties from both teams' lists, Black's first.
    pub open spec fn cull(self, now: u64) -> (TournamentState, Result<(), TournamentManagerError>) {
        match self.game_time(now) {
            None => (self, Err(TournamentManagerError::InvalidNowValue)),
            Some(t) => match culled(self.b_penalties, self.current_period, t, self.config) {
                None => (self, Err(TournamentManagerError::InvalidNowValue)),
                Some(b) => {
                    let s1 = TournamentState { b_penalties: b, ..self };
                    match culled(self.w_penalties, self.current_period, t, self.config) {
                        None => (s1, Err(TournamentManagerError::InvalidNowValue)),
                        Some(w) => (TournamentState { w_penalties: w, ..s1 }, Ok(())),
                    }
                },
            },
        }
    }

    /// The period that follows when the game clock runs out at `t0`, with
    /// the clock set for it and served penalties removed where a period of
    /// play begins.
    pub open spec fn advance(self, now: u64, wall: int, t0: u64) -> (TournamentState, Result<
        (),
        TournamentManagerError,
    >) {
        let tied = self.b_score == self.w_score;
        let (s2, need_cull) = match self.current_period {
            GamePeriod::BetweenGames => (self.start_game(t0), false),
            GamePeriod::FirstHalf => (
                TournamentState { current_period: GamePeriod::HalfTime, ..self },
                false,
            ),
            GamePeriod::HalfTime => (
                TournamentState {
                    current_period: GamePeriod::SecondHalf,
                    b_timeouts_used: 0,
                    w_timeouts_used: 0,
                    ..self
                },
                true,
            ),
            GamePeriod::SecondHalf => if !tied || (!self.config.overtime_allowed
                && !self.config.sudden_death_allowed) {
                (self.end_game(now, wall), false)
            } else if self.config.overtime_allowed {
                (TournamentState { current_period: GamePeriod::PreOvertime, ..self }, false)
            } else {
                (TournamentState { current_period: GamePeriod::PreSuddenDeath, ..self }, false)
            },
            GamePeriod::PreOvertime => (
                TournamentState { current_period: GamePeriod::OvertimeFirstHalf, ..self },
                true,
            ),
            GamePeriod::OvertimeFirstHalf => (
                TournamentState { current_period: GamePeriod::OvertimeHalfTime, ..self },
                false,
            ),
            GamePeriod::OvertimeHalfTime => (
                TournamentState { current_period: GamePeriod::OvertimeSecondHalf, ..self },
                true,
            ),
            GamePeriod::OvertimeSecondHalf => if !tied || !self.config.sudden_death_allowed {
                (self.end_game(now, wall), false)
            } else {
                (TournamentState { current_period: GamePeriod::PreSuddenDeath, ..self }, false)
            },
            GamePeriod::PreSuddenDeath => (
                TournamentState { current_period: GamePeriod::SuddenDeath, ..self },
                true,
            ),
            GamePeriod::SuddenDeath => (self, false),
        };
        if s2.current_period != GamePeriod::BetweenGames {
            let s3 = TournamentState {
                clock_state: if s2.current_period != GamePeriod::SuddenDeath {
                    ClockState::CountingDown {
                        start_time: t0,
                        time_remaining_at_start: s2.config.duration_of(
                            s2.current_period,
                        ).unwrap(),
                    }
                } else {
                    ClockState::CountingUp { start_time: t0, time_at_start: 0 }
                },
                ..s2
            };
            if need_cull {
                s3.cull(now)
            } else {
                (s3, Ok(()))
            }
        } else {
            (s2, Ok(()))
        }
    }

    /// A team timeout whose clock has run out ends, and the game clock
    /// resumes from where it stopped.
    pub open spec fn end_expired_team_timeout(self, now: u64) -> TournamentState {
        let cs = match self.timeout_state {
            TimeoutState::Black(cs) => Some(cs),
            TimeoutState::White(cs) => Some(cs),
            _ => None,
        };
        match cs {
            Some(ClockState::CountingDown { start_time, time_remaining_at_start }) => if since(
                now,
                start_time,
            ) >= time_remaining_at_start {
                match self.clock_state {
                    ClockState::Stopped { clock_time } => TournamentState {
                        clock_state: ClockState::CountingDown {
                            start_time: sat(start_time + time_remaining_at_start),
                            time_remaining_at_start: clock_time,
                        },
                        timeout_state: TimeoutState::NoTimeout,
                        ..self
                    },
                    _ => self,
                }
            } else {
                self
            },
            _ => self,
        }
    }

    /// The inputs on which `update` has a defined outcome: a next game
    /// number that fits where a game starts, and no team timeout running out
    /// while the game clock counts up.
    pub open spec fn update_defined(self, now: u64) -> bool {
        match self.clock_state {
            ClockState::CountingDown { start_time, time_remaining_at_start } => (now >= start_time
                && now - start_time >= time_remaining_at_start && self.current_period
                == GamePeriod::BetweenGames) ==> self.next_number() <= u32::MAX,
            ClockState::CountingUp { .. } => {
                let cs = match self.timeout_state {
                    TimeoutState::Black(cs) => Some(cs),
                    TimeoutState::White(cs) => Some(cs),
                    _ => None,
                };
                !(cs matches Some(ClockState::CountingDown { start_time, time_remaining_at_start })
                    && since(now, start_time) >= time_remaining_at_start)
            },
            ClockState::Stopped { .. } => true,
        }
    }

    /// Moving the game on to `now`.
    pub open spec fn update(self, now: u64, wall: int) -> (TournamentState, Result<
        (),
        TournamentManagerError,
    >) {
        match self.clock_state {
            ClockState::CountingDown { start_time, time_remaining_at_start } => if now
                < start_time {
                (self, Err(TournamentManagerError::InvalidNowValue))
            } else {
                let shown = match self.game_time(now) {
                    Some(t) => t,
                    None => 0,
                };
                let s1 = if !self.has_reset && self.current_period == GamePeriod::BetweenGames
                    && shown <= self.reset_game_time {
                    self.reset()
                } else {
                    self
                };
                if now - start_time >= time_remaining_at_start {
                    s1.advance(now, wall, sat(start_time + time_remaining_at_start))
                } else {
                    (s1, Ok(()))
                }
            },
            _ => (self.end_expired_team_timeout(now), Ok(())),
        }
    }
}

} // verus!

verus! {

/// The game clock and game state of one pool of a tournament.
///
/// Monotonic instants (`now`) and wall-clock readings (`wall_now`) come from
/// the caller, which reads the clocks; `start_stop_signal` tells it whether
/// the clock was last started or stopped.
pub struct TournamentManager {
    config: GameConfig,
    game_number: u32,
    current_period: GamePeriod,
    clock_state: ClockState,
    timeout_state: TimeoutState,
    b_timeouts_used: u16,
    w_timeouts_used: u16,
    b_score: u8,
    w_score: u8,
    b_penalties: Vec<Penalty>,
    w_penalties: Vec<Penalty>,
    has_reset: bool,
    clock_running_signal: bool,
    next_game: Option<NextGameInfo>,
    next_scheduled_start: Option<u64>,
    reset_game_time: u64,
    timezone_offset_secs: i32,
    recent_goal: Option<(Color, u8, GamePeriod, u64)>,
}

impl View for TournamentManager {
    type V = TournamentState;

    closed spec fn view(&self) -> TournamentState {
        TournamentState {
            config: self.config,
            game_number: self.game_number,
            current_period: self.current_period,
            clock_state: self.clock_state,
            timeout_state: self.timeout_state,
            b_timeouts_used: self.b_timeouts_used,
            w_timeouts_used: self.w_timeouts_used,
            b_score: self.b_score,
            w_score: self.w_score,
            b_penalties: self.b_penalties@,
            w_penalties: self.w_penalties@,
            has_reset: self.has_reset,
            clock_running_signal: self.clock_running_signal,
            next_game: self.next_game,
            next_scheduled_start: self.next_scheduled_start,
            reset_game_time: self.reset_game_time,
            timezone_offset_secs: self.timezone_offset_secs,
            recent_goal: self.recent_goal,
        }
    }
}

impl TournamentManager {
    /// A manager between games, its clock stopped at the nominal break.
    pub fn new(config: GameConfig) -> (r: TournamentManager)
        ensures
            r@.wf(),
            r@ == (TournamentState {
                config: config,
                game_number: 0,
                current_period: GamePeriod::BetweenGames,
                clock_state: ClockState::Stopped { clock_time: config.nominal_break },
                timeout_state: TimeoutState::NoTimeout,
                b_timeouts_used: 0,
                w_timeouts_used: 0,
                b_score: 0,
                w_score: 0,
                b_penalties: Seq::empty(),
                w_penalties: Seq::empty(),
                has_reset: true,
                clock_running_signal: false,
                next_game: None,
                next_scheduled_start: None,
                reset_game_time: config.nominal_break,
                timezone_offset_secs: 0,
                recent_goal: None,
            }),
    {
        TournamentManager {
            game_number: 0,
            current_period: GamePeriod::BetweenGames,
            clock_state: ClockState::Stopped { clock_time: config.nominal_break },
            timeout_state: TimeoutState::NoTimeout,
            b_timeouts_used: 0,
            w_timeouts_used: 0,
            b_score: 0,
            w_score: 0,
            b_penalties: Vec::new(),
            w_penalties: Vec::new(),
            has_reset: true,
            clock_running_signal: false,
            next_game: None,
            next_scheduled_start: None,
            reset_game_time: config.nominal_break,
            config: config,
            timezone_offset_secs: 0,
            recent_goal: None,
        }
    }

    pub fn clock_is_running(&self) -> (r: bool)
        ensures
            r == self@.running(),
    {
        match self.timeout_state {
            TimeoutState::Black(cs) => cs.is_running(),
            TimeoutState::White(cs) => cs.is_running(),
            TimeoutState::Ref(cs) => cs.is_running(),
            TimeoutState::PenaltyShot(cs) => cs.is_running(),
            TimeoutState::NoTimeout => self.clock_state.is_running(),
        }
    }

    /// Whether the clock was last started (`true`) or stopped.
    pub fn start_stop_signal(&self) -> (r: bool)
        ensures
            r == self@.clock_running_signal,
    {
        self.clock_running_signal
    }

    pub fn get_b_score(&self) -> (r: u8)
        ensures
            r == self@.b_score,
    {
        self.b_score
    }

    pub fn get_w_score(&self) -> (r: u8)
        ensures
            r == self@.w_score,
    {
        self.w_score
    }

    /// The timeouts each team has used in this half.
    pub fn timeouts_used(&self) -> (r: BlackWhiteBundle<u16>)
        ensures
            r.black == self@.b_timeouts_used,
            r.white == self@.w_timeouts_used,
    {
        BlackWhiteBundle { black: self.b_timeouts_used, white: self.w_timeouts_used }
    }

    pub fn set_timezone(&mut self, offset_secs: i32)
        requires
            old(self)@.wf(),
        ensures
            final(self)@ == (TournamentState { timezone_offset_secs: offset_secs, ..old(self)@ }),
            final(self)@.wf(),
    {
        self.timezone_offset_secs = offset_secs;
    }

    pub fn current_period(&self) -> (r: GamePeriod)
        ensures
            r == self@.current_period,
    {
        self.current_period
    }

    pub fn config(&self) -> (r: &GameConfig)
        ensures
            *r == self@.config,
    {
        &self.config
    }

    pub fn next_game_info(&self) -> (r: &Option<NextGameInfo>)
        ensures
            *r == self@.next_game,
    {
        &self.next_game
    }

    /// The timing rules can only be changed between games.
    pub fn set_config(&mut self, config: GameConfig) -> (r: Result<(), TournamentManagerError>)
        requires
            old(self)@.wf(),
        ensures
            final(self)@.wf(),
            old(self)@.current_period == GamePeriod::BetweenGames ==> r is Ok && final(self)@
                == (TournamentState { config: config, ..old(self)@ }),
            old(self)@.current_period != GamePeriod::BetweenGames ==> r == Err::<
                (),
                TournamentManagerError,
            >(TournamentManagerError::GameInProgress) && final(self)@ == old(self)@,
    {
        if self.current_period != GamePeriod::BetweenGames {
            return Err(TournamentManagerError::GameInProgress);
        }
        self.config = config;
        Ok(())
    }

    pub fn clear_scheduled_game_start(&mut self)
        requires
            old(self)@.wf(),
        ensures
            final(self)@ == (TournamentState { next_scheduled_start: None, ..old(self)@ }),
            final(self)@.wf(),
    {
        self.next_scheduled_start = None;
    }

    pub fn game_number(&self) -> (r: u32)
        ensures
            r == self@.game_number,
    {
        self.game_number
    }

    pub fn next_game_number(&self) -> (r: u32)
        requires
            self@.next_number() <= u32::MAX,
        ensures
            r == self@.next_number(),
    {
        if self.current_period == GamePeriod::BetweenGames {
            match self.next_game {
                Some(info) => {
                    return info.number;
                },
                None => {},
            }
        }
        self.game_number + 1
    }

    pub fn set_game_number(&mut self, number: u32)
        requires
            old(self)@.wf(),
        ensures
            final(self)@ == (TournamentState { game_number: number, ..old(self)@ }),
            final(self)@.wf(),
    {
        self.game_number = number;
    }

    pub fn set_next_game(&mut self, info: NextGameInfo)
        requires
            old(self)@.wf(),
        ensures
            final(self)@ == (TournamentState { next_game: Some(info), ..old(self)@ }),
            final(self)@.wf(),
    {
        self.next_game = Some(info);
    }

    fn reset(&mut self)
        ensures
            final(self)@ == old(self)@.reset(),
    {
        self.b_score = 0;
        self.w_score = 0;
        self.b_penalties = Vec::new();
        self.w_penalties = Vec::new();
        self.has_reset = true;
    }

    /// Starts the game clock if it is stopped; whether it was.
    pub fn start_game_clock(&mut self, now: u64) -> (r: bool)
        ensures
            final(self)@ == old(self)@.start_game_clock(now).0,
            r == old(self)@.start_game_clock(now).1,
    {
        match self.clock_state {
            ClockState::Stopped { clock_time } => {
                if self.current_period == GamePeriod::SuddenDeath {
                    self.clock_state = ClockState::CountingUp {
                        start_time: now,
                        time_at_start: clock_time,
                    };
                } else {
                    self.clock_state = ClockState::CountingDown {
                        start_time: now,
                        time_remaining_at_start: clock_time,
                    };
                }
                true
            },
            _ => false,
        }
    }

    /// Stops the game clock if it is running; whether it was.
    pub fn stop_game_clock(&mut self, now: u64) -> (r: Result<bool, TournamentManagerError>)
        ensures
            final(self)@ == old(self)@.stop_game_clock(now).0,
            r == old(self)@.stop_game_clock(now).1,
    {
        if self.clock_state.is_running() {
            match self.clock_state.clock_time(now) {
                Some(t) => {
                    self.clock_state = ClockState::Stopped { clock_time: t };
                    Ok(true)
                },
                None => Err(TournamentManagerError::NeedsUpdate),
            }
        } else {
            Ok(false)
        }
    }

    fn calc_time_to_next_game(&self, now: u64, from_time: u64, wall_now: UtcTime) -> (r: u64)
        ensures
            r == self@.time_to_next_game(now, from_time, wall_now@),
    {
        let announced: Option<UtcTime> = match self.next_game {
            Some(info) => info.start_time,
            None => None,
        };
        let sched: u64 = match announced {
            Some(st) => {
                let offset: i128 = self.timezone_offset_secs as i128;
                let diff: i128 = st.unix_nanos() - offset * 1_000_000_000 - wall_now.unix_nanos();
                if diff >= 0 {
                    if diff > 18_446_744_073_709_551_615i128 {
                        u64::MAX
                    } else {
                        sat_add(now, diff as u64)
                    }
                } else {
                    now
                }
            },
            None => match self.next_scheduled_start {
                Some(s) => s,
                None => sat_add(now, self.config.nominal_break),
            },
        };
        let left: u64 = if sched >= from_time {
            let d = sched - from_time;
            if d >= self.config.minimum_break {
                d
            } else {
                self.config.minimum_break
            }
        } else {
            self.config.minimum_break
        };
        if left <= MAX_TIME_VAL {
            left
        } else {
            MAX_TIME_VAL
        }
    }

    fn end_game(&mut self, now: u64, wall_now: UtcTime)
        ensures
            final(self)@ == old(self)@.end_game(now, wall_now@),
    {
        let was_running = self.clock_is_running();
        let game_end: u64 = match self.clock_state {
            ClockState::CountingDown { start_time, time_remaining_at_start } => sat_add(
                start_time,
                time_remaining_at_start,
            ),
            _ => now,
        };
        let t = self.calc_time_to_next_game(now, game_end, wall_now);
        self.current_period = GamePeriod::BetweenGames;
        self.clock_state = ClockState::CountingDown {
            start_time: game_end,
            time_remaining_at_start: t,
        };
        if !was_running {
            self.clock_running_signal = true;
        }
        self.reset_game_time = t.saturating_sub(self.config.post_game_duration);
    }

    fn start_game(&mut self, start_time: u64)
        requires
            old(self)@.next_number() <= u32::MAX,
        ensures
            final(self)@ == old(self)@.start_game(start_time),
    {
        if !self.has_reset {
            self.reset();
        }
        self.game_number = self.next_game_number();
        let taken = self.next_game;
        self.next_game = None;
        match taken {
            Some(info) => match info.timing {
                Some(t) => {
                    self.config = t;
                },
                None => {},
            },
            None => {},
        }
        self.current_period = GamePeriod::FirstHalf;
        self.b_timeouts_used = 0;
        self.w_timeouts_used = 0;
        self.has_reset = false;
        let sched: u64 = match self.next_scheduled_start {
            Some(x) => x,
            None => start_time,
        };
        let game = sat_add(self.config.half_play_duration, self.config.half_play_duration);
        let total = sat_add(sat_add(sat_add(sched, game), self.config.half_time_duration), self.config.nominal_break);
        self.next_scheduled_start = Some(total);
    }
}

} // verus!

verus! {

/// Once the list of unserved penalties of a prefix is unknown, it stays
/// unknown for every longer prefix.
proof fn lemma_culled_stays_none(
    list: Seq<Penalty>,
    j: int,
    t: int,
    per: GamePeriod,
    time: u64,
    cfg: GameConfig,
)
    requires
        0 <= j <= t <= list.len(),
        culled(list.take(j), per, time, cfg) is None,
    ensures
        culled(list.take(t), per, time, cfg) is None,
    decreases t - j,
{
    if t > j {
        lemma_culled_stays_none(list, j, t - 1, per, time, cfg);
        assert(list.take(t).drop_last() =~= list.take(t - 1));
    }
}

/// The penalties of `list` not yet served.
fn culled_list(list: &Vec<Penalty>, per: GamePeriod, time: u64, cfg: &GameConfig) -> (r: Option<
    Vec<Penalty>,
>)
    ensures
        r matches Some(v) ==> culled(list@, per, time, *cfg) == Some(v@),
        r is None ==> culled(list@, per, time, *cfg) is None,
{
    let mut kept: Vec<Penalty> = Vec::new();
    let mut i: usize = 0;
    while i < list.len()
        invariant
            0 <= i <= list.len(),
            culled(list@.take(i as int), per, time, *cfg) == Some(kept@),
        decreases list.len() - i,
    {
        let pen = list[i];
        assert(list@.take(i as int + 1).drop_last() =~= list@.take(i as int));
        assert(list@.take(i as int + 1).last() == pen);
        match pen.is_complete(per, time, cfg) {
            None => {
                proof {
                    lemma_culled_stays_none(list@, i as int + 1, list@.len() as int, per, time, *cfg);
                    assert(list@.take(list@.len() as int) =~= list@);
                }
                return None;
            },
            Some(true) => {},
            Some(false) => {
                kept.push(pen);
            },
        }
        i = i + 1;
    }
    assert(list@.take(list@.len() as int) =~= list@);
    Some(kept)
}

/// Removes served penalties from `list` until it has at most `limit`.
fn limit_list(list: &mut Vec<Penalty>, limit: usize, per: GamePeriod, time: u64, cfg: &GameConfig) -> (r:
    Result<(), TournamentManagerError>)
    ensures
        (final(list)@, r) == limited(old(list)@, limit, per, time, *cfg),
{
    while list.len() > limit
        invariant
            limited(list@, limit, per, time, *cfg) == limited(old(list)@, limit, per, time, *cfg),
        decreases list.len(),
    {
        let mut found: Option<usize> = None;
        let mut j: usize = 0;
        while j < list.len()
            invariant_except_break
                found is None,
            invariant
                0 <= j <= list.len(),
                list.len() > limit,
                limited(list@, limit, per, time, *cfg) == limited(old(list)@, limit, per, time, *cfg),
                first_complete(list@, 0, per, time, *cfg) == first_complete(
                    list@,
                    j as int,
                    per,
                    time,
                    *cfg,
                ),
            ensures
                found matches Some(i) ==> i < list.len() && first_complete(list@, 0, per, time, *cfg) == Some(Some(i as int)),
                found is None ==> first_complete(list@, 0, per, time, *cfg) == Some(None::<int>),
            decreases list.len() - j,
        {
            match list[j].is_complete(per, time, cfg) {
                None => {
                    return Err(TournamentManagerError::InvalidNowValue);
                },
                Some(true) => {
                    found = Some(j);
                    break;
                },
                Some(false) => {},
            }
            j = j + 1;
        }
        match found {
            Some(i) => {
                assert(first_complete(list@, 0, per, time, *cfg) == Some(Some(i as int)));
                list.remove(i);
            },
            None => {
                return Err(TournamentManagerError::TooManyPenalties(limit));
            },
        }
    }
    Ok(())
}

impl TournamentManager {
    fn cull_penalties(&mut self, now: u64) -> (r: Result<(), TournamentManagerError>)
        ensures
            final(self)@ == old(self)@.cull(now).0,
            r == old(self)@.cull(now).1,
    {
        let time = match self.clock_state.clock_time(now) {
            Some(t) => t,
            None => {
                return Err(TournamentManagerError::InvalidNowValue);
            },
        };
        let period = self.current_period;
        match culled_list(&self.b_penalties, period, time, &self.config) {
            None => {
                return Err(TournamentManagerError::InvalidNowValue);
            },
            Some(b) => {
                self.b_penalties = b;
            },
        }
        match culled_list(&self.w_penalties, period, time, &self.config) {
            None => {
                return Err(TournamentManagerError::InvalidNowValue);
            },
            Some(w) => {
                self.w_penalties = w;
            },
        }
        Ok(())
    }

    fn advance(&mut self, now: u64, wall_now: UtcTime, t0: u64) -> (r: Result<
        (),
        TournamentManagerError,
    >)
        requires
            old(self)@.wf(),
            old(self)@.current_period == GamePeriod::BetweenGames ==> old(self)@.next_number()
                <= u32::MAX,
        ensures
            final(self)@ == old(self)@.advance(now, wall_now@, t0).0,
            r == old(self)@.advance(now, wall_now@, t0).1,
    {
        let mut need_cull = false;
        let tied = self.b_score == self.w_score;
        match self.current_period {
            GamePeriod::BetweenGames => {
                self.start_game(t0);
            },
            GamePeriod::FirstHalf => {
                self.current_period = GamePeriod::HalfTime;
            },
            GamePeriod::HalfTime => {
                self.current_period = GamePeriod::SecondHalf;
                self.w_timeouts_used = 0;
                self.b_timeouts_used = 0;
                need_cull = true;
            },
            GamePeriod::SecondHalf => {
                if !tied || (!self.config.overtime_allowed && !self.config.sudden_death_allowed) {
                    self.end_game(now, wall_now);
                } else if self.config.overtime_allowed {
                    self.current_period = GamePeriod::PreOvertime;
                } else {
                    self.current_period = GamePeriod::PreSuddenDeath;
                }
            },
            GamePeriod::PreOvertime => {
                self.current_period = GamePeriod::OvertimeFirstHalf;
                need_cull = true;
            },
            GamePeriod::OvertimeFirstHalf => {
                self.current_period = GamePeriod::OvertimeHalfTime;
            },
            GamePeriod::OvertimeHalfTime => {
                self.current_period = GamePeriod::OvertimeSecondHalf;
                need_cull = true;
            },
            GamePeriod::OvertimeSecondHalf => {
                if !tied || !self.config.sudden_death_allowed {
                    self.end_game(now, wall_now);
                } else {
                    self.current_period = GamePeriod::PreSuddenDeath;
                }
            },
            GamePeriod::PreSuddenDeath => {
                self.current_period = GamePeriod::SuddenDeath;
                need_cull = true;
            },
            GamePeriod::SuddenDeath => {},
        }
        if self.current_period != GamePeriod::BetweenGames {
            if self.current_period != GamePeriod::SuddenDeath {
                let d = match self.config.period_duration(self.current_period) {
                    Some(d) => d,
                    None => 0,
                };
                self.clock_state = ClockState::CountingDown {
                    start_time: t0,
                    time_remaining_at_start: d,
                };
            } else {
                self.clock_state = ClockState::CountingUp { start_time: t0, time_at_start: 0 };
            }
            if need_cull {
                return self.cull_penalties(now);
            }
        }
        Ok(())
    }

    fn end_expired_team_timeout(&mut self, now: u64)
        ensures
            final(self)@ == old(self)@.end_expired_team_timeout(now),
    {
        let cs = match self.timeout_state {
            TimeoutState::Black(cs) => Some(cs),
            TimeoutState::White(cs) => Some(cs),
            _ => None,
        };
        match cs {
            Some(ClockState::CountingDown { start_time, time_remaining_at_start }) => {
                if now.saturating_sub(start_time) >= time_remaining_at_start {
                    match self.clock_state {
                        ClockState::Stopped { clock_time } => {
                            self.clock_state = ClockState::CountingDown {
                                start_time: sat_add(start_time, time_remaining_at_start),
                                time_remaining_at_start: clock_time,
                            };
                            self.timeout_state = TimeoutState::NoTimeout;
                        },
                        _ => {},
                    }
                }
            },
            _ => {},
        }
    }

    /// Moves the game on to `now`: into the next period when the game clock
    /// has run out, out of a team timeout when its clock has, and resets the
    /// scores between games once the post-game display time has passed.
    #[verifier::spinoff_prover]
    #[verifier::rlimit(40)]
    pub fn update(&mut self, now: u64, wall_now: UtcTime) -> (r: Result<
        (),
        TournamentManagerError,
    >)
        requires
            old(self)@.wf(),
            old(self)@.update_defined(now),
        ensures
            final(self)@.wf(),
            final(self)@ == old(self)@.update(now, wall_now@).0,
            r == old(self)@.update(now, wall_now@).1,
    {
        match self.clock_state {
            ClockState::CountingDown { start_time, time_remaining_at_start } => {
                if now < start_time {
                    return Err(TournamentManagerError::InvalidNowValue);
                }
                let shown: u64 = match self.clock_state.clock_time(now) {
                    Some(t) => t,
                    None => 0,
                };
                if !self.has_reset && self.current_period == GamePeriod::BetweenGames && shown
                    <= self.reset_game_time {
                    self.reset();
                }
                if now - start_time >= time_remaining_at_start {
                    self.advance(now, wall_now, sat_add(start_time, time_remaining_at_start))
                } else {
                    Ok(())
                }
            },
            _ => {
                self.end_expired_team_timeout(now);
                Ok(())
            },
        }
    }
}

} // verus!

verus! {

/// A team's timeout state with the given clock.
pub open spec fn team_timeout(color: Color, cs: ClockState) -> TimeoutState {
    match color {
        Color::Black => TimeoutState::Black(cs),
        Color::White => TimeoutState::White(cs),
    }
}

/// The same timeout with its clock replaced.
pub open spec fn with_clock(ts: TimeoutState, cs: ClockState) -> TimeoutState {
    match ts {
        TimeoutState::NoTimeout => TimeoutState::NoTimeout,
        TimeoutState::Black(_) => TimeoutState::Black(cs),
        TimeoutState::White(_) => TimeoutState::White(cs),
        TimeoutState::Ref(_) => TimeoutState::Ref(cs),
        TimeoutState::PenaltyShot(_) => TimeoutState::PenaltyShot(cs),
    }
}

impl TournamentState {
    pub open spec fn timeouts_used(self, color: Color) -> u16 {
        match color {
            Color::Black => self.b_timeouts_used,
            Color::White => self.w_timeouts_used,
        }
    }

    pub open spec fn with_timeouts_used(self, color: Color, n: u16) -> TournamentState {
        match color {
            Color::Black => TournamentState { b_timeouts_used: n, ..self },
            Color::White => TournamentState { w_timeouts_used: n, ..self },
        }
    }

    pub open spec fn in_team_timeout(self, color: Color) -> bool {
        match color {
            Color::Black => self.timeout_state is Black,
            Color::White => self.timeout_state is White,
        }
    }

    /// Whether `color` may call a timeout: not already in one of its own,
    /// in a half, with one left.
    pub open spec fn can_start_team_timeout(self, color: Color, now: u64) -> Result<
        (),
        TournamentManagerError,
    > {
        if self.in_team_timeout(color) {
            Err(TournamentManagerError::AlreadyInTimeout(self.timeout_state.snapshot(now)))
        } else if self.current_period == GamePeriod::FirstHalf || self.current_period
            == GamePeriod::SecondHalf {
            if self.timeouts_used(color) < self.config.team_timeouts_per_half {
                Ok(())
            } else {
                Err(TournamentManagerError::TooManyTeamTimeouts(color))
            }
        } else {
            Err(
                TournamentManagerError::WrongGamePeriod(
                    match color {
                        Color::Black => TimeoutSnapshot::Black(0),
                        Color::White => TimeoutSnapshot::White(0),
                    },
                    self.current_period,
                ),
            )
        }
    }

    pub open spec fn can_start_ref_timeout(self, now: u64) -> Result<(), TournamentManagerError> {
        if self.timeout_state is Ref {
            Err(TournamentManagerError::AlreadyInTimeout(self.timeout_state.snapshot(now)))
        } else {
            Ok(())
        }
    }

    pub open spec fn can_start_penalty_shot(self, now: u64) -> Result<(), TournamentManagerError> {
        if self.timeout_state is PenaltyShot {
            Err(TournamentManagerError::AlreadyInTimeout(self.timeout_state.snapshot(now)))
        } else if self.current_period.is_play() {
            Ok(())
        } else {
            Err(
                TournamentManagerError::WrongGamePeriod(
                    TimeoutSnapshot::PenaltyShot(0),
                    self.current_period,
                ),
            )
        }
    }

    /// Whether a timeout of the other team can be turned into one of
    /// `color`'s.
    pub open spec fn can_switch_to_team_timeout(self, color: Color) -> Result<
        (),
        TournamentManagerError,
    > {
        let from_other = match color {
            Color::Black => self.timeout_state is White,
            Color::White => self.timeout_state is Black,
        };
        if from_other {
            if self.timeouts_used(color) < self.config.team_timeouts_per_half {
                Ok(())
            } else {
                Err(TournamentManagerError::TooManyTeamTimeouts(color))
            }
        } else {
            match color {
                Color::Black => Err(TournamentManagerError::NotInWhiteTimeout),
                Color::White => Err(TournamentManagerError::NotInBlackTimeout),
            }
        }
    }

    pub open spec fn can_switch_to_ref_timeout(self) -> Result<(), TournamentManagerError> {
        if self.timeout_state is PenaltyShot {
            Ok(())
        } else {
            Err(TournamentManagerError::NotInPenaltyShot)
        }
    }

    pub open spec fn can_switch_to_penalty_shot(self) -> Result<(), TournamentManagerError> {
        if self.current_period.is_play() {
            if self.timeout_state is Ref {
                Ok(())
            } else {
                Err(TournamentManagerError::NotInRefTimeout)
            }
        } else {
            Err(
                TournamentManagerError::WrongGamePeriod(
                    TimeoutSnapshot::PenaltyShot(0),
                    self.current_period,
                ),
            )
        }
    }

    /// Entering a timeout with clock `running_cs` (when the clock is
    /// running, after stopping the game clock) or `stopped_cs`.
    pub open spec fn enter_timeout(
        self,
        now: u64,
        running_ts: TimeoutState,
        stopped_ts: TimeoutState,
    ) -> (TournamentState, Result<(), TournamentManagerError>) {
        if self.running() {
            let (s1, r) = self.stop_game_clock(now);
            match r {
                Err(e) => (s1, Err(e)),
                Ok(_) => (TournamentState { timeout_state: running_ts, ..s1 }, Ok(())),
            }
        } else {
            (TournamentState { timeout_state: stopped_ts, ..self }, Ok(()))
        }
    }

    pub open spec fn start_team_timeout(self, color: Color, now: u64) -> (TournamentState, Result<
        (),
        TournamentManagerError,
    >) {
        match self.can_start_team_timeout(color, now) {
            Err(e) => (self, Err(e)),
            Ok(_) => {
                let d = self.config.team_timeout_duration;
                let (s1, r) = self.enter_timeout(
                    now,
                    team_timeout(
                        color,
                        ClockState::CountingDown { start_time: now, time_remaining_at_start: d },
                    ),
                    team_timeout(color, ClockState::Stopped { clock_time: d }),
                );
                match r {
                    Err(e) => (s1, Err(e)),
                    Ok(_) => (
                        s1.with_timeouts_used(color, (self.timeouts_used(color) + 1) as u16),
                        Ok(()),
                    ),
                }
            },
        }
    }

    pub open spec fn start_ref_timeout(self, now: u64) -> (TournamentState, Result<
        (),
        TournamentManagerError,
    >) {
        match self.can_start_ref_timeout(now) {
            Err(e) => (self, Err(e)),
            Ok(_) => self.enter_timeout(
                now,
                TimeoutState::Ref(ClockState::CountingUp { start_time: now, time_at_start: 0 }),
                TimeoutState::Ref(ClockState::Stopped { clock_time: 0 }),
            ),
        }
    }

    pub open spec fn start_penalty_shot(self, now: u64) -> (TournamentState, Result<
        (),
        TournamentManagerError,
    >) {
        match self.can_start_penalty_shot(now) {
            Err(e) => (self, Err(e)),
            Ok(_) => self.enter_timeout(
                now,
                TimeoutState::PenaltyShot(
                    ClockState::CountingUp { start_time: now, time_at_start: 0 },
                ),
                TimeoutState::PenaltyShot(ClockState::Stopped { clock_time: 0 }),
            ),
        }
    }

    /// Turning the other team's timeout into `color`'s: its clock carries
    /// over, and the timeout is counted against `color` instead.
    pub open spec fn switch_team_timeout(self, color: Color) -> (TournamentState, Result<
        (),
        TournamentManagerError,
    >) {
        match self.can_switch_to_team_timeout(color) {
            Err(e) => (self, Err(e)),
            Ok(_) => {
                let other = match color {
                    Color::Black => Color::White,
                    Color::White => Color::Black,
                };
                let cs = self.timeout_state.clock().unwrap();
                let back = self.timeouts_used(other);
                (
                    TournamentState { timeout_state: team_timeout(color, cs), ..self }
                        .with_timeouts_used(color, (self.timeouts_used(color) + 1) as u16)
                        .with_timeouts_used(
                        other,
                        if back > 0 {
                            (back - 1) as u16
                        } else {
                            0
                        },
                    ),
                    Ok(()),
                )
            },
        }
    }

    pub open spec fn switch_to_ref_timeout(self) -> (TournamentState, Result<
        (),
        TournamentManagerError,
    >) {
        match self.timeout_state {
            TimeoutState::PenaltyShot(cs) => (
                TournamentState { timeout_state: TimeoutState::Ref(cs), ..self },
                Ok(()),
            ),
            _ => (self, Err(TournamentManagerError::NotInPenaltyShot)),
        }
    }

    pub open spec fn switch_to_penalty_shot(self) -> (TournamentState, Result<
        (),
        TournamentManagerError,
    >) {
        match self.can_switch_to_penalty_shot() {
            Err(e) => (self, Err(e)),
            Ok(_) => (
                TournamentState {
                    timeout_state: TimeoutState::PenaltyShot(self.timeout_state.clock().unwrap()),
                    ..self
                },
                Ok(()),
            ),
        }
    }

    /// Ending the timeout: play resumes, the game clock starting again if
    /// the timeout clock was running.
    pub open spec fn end_timeout(self, now: u64) -> (TournamentState, Result<
        (),
        TournamentManagerError,
    >) {
        match self.timeout_state.clock() {
            None => (self, Err(TournamentManagerError::NotInTimeout)),
            Some(cs) => {
                let s1 = if cs.running() {
                    self.start_game_clock(now).0
                } else {
                    self
                };
                (TournamentState { timeout_state: TimeoutState::NoTimeout, ..s1 }, Ok(()))
            },
        }
    }

    pub open spec fn set_scores(self, b: u8, w: u8, now: u64, wall: int) -> TournamentState {
        let s1 = TournamentState { b_score: b, w_score: w, ..self };
        if self.current_period == GamePeriod::SuddenDeath && b != w {
            s1.end_game(now, wall)
        } else {
            s1
        }
    }

    /// A goal by `color`'s player `player`: recorded as the recent goal at
    /// the game clock's reading, and the team's score goes up by one.
    pub open spec fn add_score(self, color: Color, player: u8, now: u64, wall: int) -> TournamentState {
        let s1 = TournamentState {
            recent_goal: match self.game_time(now) {
                Some(t) => Some((color, player, self.current_period, t)),
                None => None,
            },
            ..self
        };
        match color {
            Color::Black => s1.set_scores((self.b_score + 1) as u8, self.w_score, now, wall),
            Color::White => s1.set_scores(self.b_score, (self.w_score + 1) as u8, now, wall),
        }
    }

    pub open spec fn reset_game(self, now: u64) -> TournamentState {
        let s1 = TournamentState {
            current_period: GamePeriod::BetweenGames,
            clock_state: ClockState::Stopped { clock_time: self.config.minimum_break },
            timeout_state: TimeoutState::NoTimeout,
            ..self
        }.reset();
        if self.running() {
            s1.start_game_clock(now).0
        } else {
            s1
        }
    }

    pub open spec fn start_clock(self, now: u64) -> TournamentState {
        match self.timeout_state {
            TimeoutState::NoTimeout => {
                let (s1, started) = self.start_game_clock(now);
                if started {
                    TournamentState { clock_running_signal: true, ..s1 }
                } else {
                    s1
                }
            },
            TimeoutState::Black(ClockState::Stopped { clock_time }) => TournamentState {
                timeout_state: TimeoutState::Black(
                    ClockState::CountingDown { start_time: now, time_remaining_at_start: clock_time },
                ),
                clock_running_signal: true,
                ..self
            },
            TimeoutState::White(ClockState::Stopped { clock_time }) => TournamentState {
                timeout_state: TimeoutState::White(
                    ClockState::CountingDown { start_time: now, time_remaining_at_start: clock_time },
                ),
                clock_running_signal: true,
                ..self
            },
            TimeoutState::Ref(ClockState::Stopped { clock_time }) => TournamentState {
                timeout_state: TimeoutState::Ref(
                    ClockState::CountingUp { start_time: now, time_at_start: clock_time },
                ),
                clock_running_signal: true,
                ..self
            },
            TimeoutState::PenaltyShot(ClockState::Stopped { clock_time }) => TournamentState {
                timeout_state: TimeoutState::PenaltyShot(
                    ClockState::CountingUp { start_time: now, time_at_start: clock_time },
                ),
                clock_running_signal: true,
                ..self
            },
            _ => self,
        }
    }

    pub open spec fn stop_clock(self, now: u64) -> (TournamentState, Result<
        (),
        TournamentManagerError,
    >) {
        match self.timeout_state.clock() {
            None => {
                let (s1, r) = self.stop_game_clock(now);
                match r {
                    Err(e) => (s1, Err(e)),
                    Ok(stopped) => (
                        if stopped {
                            TournamentState { clock_running_signal: false, ..s1 }
                        } else {
                            s1
                        },
                        Ok(()),
                    ),
                }
            },
            Some(cs) => if cs.running() {
                match cs.reading(now) {
                    None => (self, Err(TournamentManagerError::NeedsUpdate)),
                    Some(t) => (
                        TournamentState {
                            timeout_state: with_clock(
                                self.timeout_state,
                                ClockState::Stopped { clock_time: t },
                            ),
                            clock_running_signal: false,
                            ..self
                        },
                        Ok(()),
                    ),
                }
            } else {
                (self, Ok(()))
            },
        }
    }

    /// Stopping a counting-down game clock outside a timeout; a clock that
    /// has run out stops at one nanosecond, so that `update` does not move
    /// the game on.
    pub open spec fn halt_clock(self, now: u64) -> (TournamentState, Result<
        (),
        TournamentManagerError,
    >) {
        if !(self.timeout_state is NoTimeout) {
            (self, Err(TournamentManagerError::AlreadyInTimeout(self.timeout_state.snapshot(now))))
        } else {
            match self.clock_state {
                ClockState::CountingDown { start_time, .. } => match self.clock_state.reading(now) {
                    Some(t) => (
                        TournamentState {
                            clock_state: ClockState::Stopped { clock_time: t },
                            clock_running_signal: false,
                            ..self
                        },
                        Ok(()),
                    ),
                    None => if now < start_time {
                        (self, Err(TournamentManagerError::InvalidNowValue))
                    } else {
                        (
                            TournamentState {
                                clock_state: ClockState::Stopped { clock_time: 1 },
                                clock_running_signal: false,
                                ..self
                            },
                            Ok(()),
                        )
                    },
                },
                _ => (self, Err(TournamentManagerError::InvalidState)),
            }
        }
    }

    /// The referees start the next period of play at once.
    pub open spec fn start_play_now(self, now: u64) -> (TournamentState, Result<
        (),
        TournamentManagerError,
    >) {
        if !(self.timeout_state is NoTimeout) {
            (self, Err(TournamentManagerError::AlreadyInTimeout(self.timeout_state.snapshot(now))))
        } else if self.current_period.is_play() {
            (self, Err(TournamentManagerError::AlreadyInPlayPeriod))
        } else {
            let (s1, need_cull) = match self.current_period {
                GamePeriod::BetweenGames => (self.start_game(now), false),
                GamePeriod::HalfTime => (
                    TournamentState {
                        current_period: GamePeriod::SecondHalf,
                        b_timeouts_used: 0,
                        w_timeouts_used: 0,
                        ..self
                    },
                    true,
                ),
                GamePeriod::PreOvertime => (
                    TournamentState { current_period: GamePeriod::OvertimeFirstHalf, ..self },
                    true,
                ),
                GamePeriod::OvertimeHalfTime => (
                    TournamentState { current_period: GamePeriod::OvertimeSecondHalf, ..self },
                    true,
                ),
                _ => (TournamentState { current_period: GamePeriod::SuddenDeath, ..self }, true),
            };
            let s2 = TournamentState {
                clock_state: if s1.current_period == GamePeriod::SuddenDeath {
                    ClockState::CountingUp { start_time: now, time_at_start: 0 }
                } else {
                    ClockState::CountingDown {
                        start_time: now,
                        time_remaining_at_start: s1.config.duration_of(s1.current_period).unwrap(),
                    }
                },
                ..s1
            };
            let (s3, r) = if need_cull {
                s2.cull(now)
            } else {
                (s2, Ok(()))
            };
            match r {
                Err(e) => (s3, Err(e)),
                Ok(_) => (
                    if !self.running() {
                        TournamentState { clock_running_signal: true, ..s3 }
                    } else {
                        s3
                    },
                    Ok(()),
                ),
            }
        }
    }

    pub open spec fn set_game_clock_time(self, t: u64) -> (TournamentState, Result<
        (),
        TournamentManagerError,
    >) {
        if !self.running() {
            (TournamentState { clock_state: ClockState::Stopped { clock_time: t }, ..self }, Ok(()))
        } else {
            (self, Err(TournamentManagerError::ClockIsRunning))
        }
    }

    pub open spec fn set_timeout_clock_time(self, t: u64) -> (TournamentState, Result<
        (),
        TournamentManagerError,
    >) {
        if self.running() {
            (self, Err(TournamentManagerError::ClockIsRunning))
        } else if self.timeout_state is NoTimeout {
            (self, Err(TournamentManagerError::NotInTimeout))
        } else {
            (
                TournamentState {
                    timeout_state: with_clock(
                        self.timeout_state,
                        ClockState::Stopped { clock_time: t },
                    ),
                    ..self
                },
                Ok(()),
            )
        }
    }

    pub open spec fn start_penalty(
        self,
        color: Color,
        player: u8,
        kind: PenaltyKind,
        now: u64,
    ) -> (TournamentState, Result<(), TournamentManagerError>) {
        match self.game_time(now) {
            None => (self, Err(TournamentManagerError::InvalidNowValue)),
            Some(t) => (
                self.with_penalties(
                    color,
                    self.penalties(color).push(
                        Penalty {
                            kind: kind,
                            player_number: player,
                            start_period: self.current_period,
                            start_time: t,
                        },
                    ),
                ),
                Ok(()),
            ),
        }
    }

    pub open spec fn delete_penalty(self, color: Color, index: usize) -> (TournamentState, Result<
        (),
        TournamentManagerError,
    >) {
        if index >= self.penalties(color).len() {
            (self, Err(TournamentManagerError::InvalidIndex(color, index)))
        } else {
            (self.with_penalties(color, self.penalties(color).remove(index as int)), Ok(()))
        }
    }

    /// Giving penalty `index` of `old_color` a new player and kind, and
    /// moving it to the end of `new_color`'s list if the team changes.
    pub open spec fn edit_penalty(
        self,
        old_color: Color,
        index: usize,
        new_color: Color,
        player: u8,
        kind: PenaltyKind,
    ) -> (TournamentState, Result<(), TournamentManagerError>) {
        let list = self.penalties(old_color);
        if index >= list.len() {
            (self, Err(TournamentManagerError::InvalidIndex(old_color, index)))
        } else {
            let p = Penalty { player_number: player, kind: kind, ..list[index as int] };
            if old_color == new_color {
                (self.with_penalties(old_color, list.update(index as int, p)), Ok(()))
            } else {
                (
                    self.with_penalties(old_color, list.remove(index as int)).with_penalties(
                        new_color,
                        self.penalties(new_color).push(p),
                    ),
                    Ok(()),
                )
            }
        }
    }

    pub open spec fn limit_pen_list_len(self, color: Color, limit: usize, now: u64) -> (
        TournamentState,
        Result<(), TournamentManagerError>,
    ) {
        match self.game_time(now) {
            None => (self, Err(TournamentManagerError::InvalidNowValue)),
            Some(t) => {
                let (list, r) = limited(
                    self.penalties(color),
                    limit,
                    self.current_period,
                    t,
                    self.config,
                );
                (self.with_penalties(color, list), r)
            },
        }
    }

    /// Counting down to the announced next game, under its timing rules.
    pub open spec fn apply_next_game_start(self, now: u64, wall: int) -> (TournamentState, Result<
        (),
        TournamentManagerError,
    >) {
        if self.current_period != GamePeriod::BetweenGames {
            (self, Err(TournamentManagerError::GameInProgress))
        } else {
            match self.next_game {
                None => (self, Err(TournamentManagerError::NoNextGameInfo)),
                Some(info) => {
                    let s1 = match info.timing {
                        Some(c) => TournamentState { config: c, ..self },
                        None => self,
                    };
                    (
                        TournamentState {
                            clock_state: ClockState::CountingDown {
                                start_time: now,
                                time_remaining_at_start: s1.time_to_next_game(now, now, wall),
                            },
                            ..s1
                        },
                        Ok(()),
                    )
                },
            }
        }
    }

    pub open spec fn would_end_game(self, now: u64) -> Result<bool, TournamentManagerError> {
        match self.clock_state {
            ClockState::CountingDown { start_time, time_remaining_at_start } => if now
                < start_time {
                Err(TournamentManagerError::InvalidNowValue)
            } else {
                let tied = self.b_score == self.w_score;
                Ok(
                    now - start_time >= time_remaining_at_start && ((self.current_period
                        == GamePeriod::SecondHalf && (!tied || (!self.config.overtime_allowed
                        && !self.config.sudden_death_allowed))) || (self.current_period
                        == GamePeriod::OvertimeSecondHalf && (!tied
                        || !self.config.sudden_death_allowed))),
                )
            },
            _ => Ok(false),
        }
    }
}

} // verus!

verus! {

impl TournamentManager {
    fn can_start_team_timeout(&self, color: Color, now: u64) -> (r: Result<
        (),
        TournamentManagerError,
    >)
        requires
            self@.in_team_timeout(color) ==> self@.timeout_state.display_fits(now),
        ensures
            r == self@.can_start_team_timeout(color, now),
    {
        let in_own = match color {
            Color::Black => matches!(self.timeout_state, TimeoutState::Black(_)),
            Color::White => matches!(self.timeout_state, TimeoutState::White(_)),
        };
        if in_own {
            return Err(TournamentManagerError::AlreadyInTimeout(self.timeout_state.as_snapshot(now)));
        }
        match self.current_period {
            GamePeriod::FirstHalf | GamePeriod::SecondHalf => {
                let used = match color {
                    Color::Black => self.b_timeouts_used,
                    Color::White => self.w_timeouts_used,
                };
                if used < self.config.team_timeouts_per_half {
                    Ok(())
                } else {
                    Err(TournamentManagerError::TooManyTeamTimeouts(color))
                }
            },
            _ => Err(
                TournamentManagerError::WrongGamePeriod(
                    match color {
                        Color::Black => TimeoutSnapshot::Black(0),
                        Color::White => TimeoutSnapshot::White(0),
                    },
                    self.current_period,
                ),
            ),
        }
    }

    /// `Ok` if White can call a timeout now, else why not.
    pub fn can_start_w_timeout(&self, now: u64) -> (r: Result<(), TournamentManagerError>)
        requires
            self@.timeout_state is White ==> self@.timeout_state.display_fits(now),
        ensures
            r == self@.can_start_team_timeout(Color::White, now),
    {
        self.can_start_team_timeout(Color::White, now)
    }

    /// `Ok` if Black can call a timeout now, else why not.
    pub fn can_start_b_timeout(&self, now: u64) -> (r: Result<(), TournamentManagerError>)
        requires
            self@.timeout_state is Black ==> self@.timeout_state.display_fits(now),
        ensures
            r == self@.can_start_team_timeout(Color::Black, now),
    {
        self.can_start_team_timeout(Color::Black, now)
    }

    pub fn can_start_ref_timeout(&self, now: u64) -> (r: Result<(), TournamentManagerError>)
        requires
            self@.timeout_state is Ref ==> self@.timeout_state.display_fits(now),
        ensures
            r == self@.can_start_ref_timeout(now),
    {
        if matches!(self.timeout_state, TimeoutState::Ref(_)) {
            Err(TournamentManagerError::AlreadyInTimeout(self.timeout_state.as_snapshot(now)))
        } else {
            Ok(())
        }
    }

    pub fn can_start_penalty_shot(&self, now: u64) -> (r: Result<(), TournamentManagerError>)
        requires
            self@.timeout_state is PenaltyShot ==> self@.timeout_state.display_fits(now),
        ensures
            r == self@.can_start_penalty_shot(now),
    {
        if matches!(self.timeout_state, TimeoutState::PenaltyShot(_)) {
            return Err(TournamentManagerError::AlreadyInTimeout(self.timeout_state.as_snapshot(now)));
        }
        match self.current_period {
            GamePeriod::FirstHalf | GamePeriod::SecondHalf | GamePeriod::OvertimeFirstHalf
            | GamePeriod::OvertimeSecondHalf | GamePeriod::SuddenDeath => Ok(()),
            gp => Err(TournamentManagerError::WrongGamePeriod(TimeoutSnapshot::PenaltyShot(0), gp)),
        }
    }

    fn can_switch_to_team_timeout(&self, color: Color) -> (r: Result<(), TournamentManagerError>)
        ensures
            r == self@.can_switch_to_team_timeout(color),
    {
        let from_other = match color {
            Color::Black => matches!(self.timeout_state, TimeoutState::White(_)),
            Color::White => matches!(self.timeout_state, TimeoutState::Black(_)),
        };
        if from_other {
            let used = match color {
                Color::Black => self.b_timeouts_used,
                Color::White => self.w_timeouts_used,
            };
            if used < self.config.team_timeouts_per_half {
                Ok(())
            } else {
                Err(TournamentManagerError::TooManyTeamTimeouts(color))
            }
        } else {
            match color {
                Color::Black => Err(TournamentManagerError::NotInWhiteTimeout),
                Color::White => Err(TournamentManagerError::NotInBlackTimeout),
            }
        }
    }

    pub fn can_switch_to_w_timeout(&self) -> (r: Result<(), TournamentManagerError>)
        ensures
            r == self@.can_switch_to_team_timeout(Color::White),
    {
        self.can_switch_to_team_timeout(Color::White)
    }

    pub fn can_switch_to_b_timeout(&self) -> (r: Result<(), TournamentManagerError>)
        ensures
            r == self@.can_switch_to_team_timeout(Color::Black),
    {
        self.can_switch_to_team_timeout(Color::Black)
    }

    pub fn can_switch_to_ref_timeout(&self) -> (r: Result<(), TournamentManagerError>)
        ensures
            r == self@.can_switch_to_ref_timeout(),
    {
        if matches!(self.timeout_state, TimeoutState::PenaltyShot(_)) {
            Ok(())
        } else {
            Err(TournamentManagerError::NotInPenaltyShot)
        }
    }

    pub fn can_switch_to_penalty_shot(&self) -> (r: Result<(), TournamentManagerError>)
        ensures
            r == self@.can_switch_to_penalty_shot(),
    {
        match self.current_period {
            GamePeriod::FirstHalf | GamePeriod::SecondHalf | GamePeriod::OvertimeFirstHalf
            | GamePeriod::OvertimeSecondHalf | GamePeriod::SuddenDeath => {
                if matches!(self.timeout_state, TimeoutState::Ref(_)) {
                    Ok(())
                } else {
                    Err(TournamentManagerError::NotInRefTimeout)
                }
            },
            gp => Err(TournamentManagerError::WrongGamePeriod(TimeoutSnapshot::PenaltyShot(0), gp)),
        }
    }

    fn enter_timeout(&mut self, now: u64, running_ts: TimeoutState, stopped_ts: TimeoutState) -> (r:
        Result<(), TournamentManagerError>)
        ensures
            final(self)@ == old(self)@.enter_timeout(now, running_ts, stopped_ts).0,
            r == old(self)@.enter_timeout(now, running_ts, stopped_ts).1,
    {
        if self.clock_is_running() {
            match self.stop_game_clock(now) {
                Err(e) => {
                    return Err(e);
                },
                Ok(_) => {},
            }
            self.timeout_state = running_ts;
        } else {
            self.timeout_state = stopped_ts;
        }
        Ok(())
    }

    fn start_team_timeout(&mut self, color: Color, now: u64) -> (r: Result<
        (),
        TournamentManagerError,
    >)
        requires
            old(self)@.wf(),
            old(self)@.in_team_timeout(color) ==> old(self)@.timeout_state.display_fits(now),
        ensures
            final(self)@.wf(),
            final(self)@ == old(self)@.start_team_timeout(color, now).0,
            r == old(self)@.start_team_timeout(color, now).1,
    {
        match self.can_start_team_timeout(color, now) {
            Err(e) => Err(e),
            Ok(()) => {
                let d = self.config.team_timeout_duration;
                let (running_ts, stopped_ts) = match color {
                    Color::Black => (
                        TimeoutState::Black(
                            ClockState::CountingDown { start_time: now, time_remaining_at_start: d },
                        ),
                        TimeoutState::Black(ClockState::Stopped { clock_time: d }),
                    ),
                    Color::White => (
                        TimeoutState::White(
                            ClockState::CountingDown { start_time: now, time_remaining_at_start: d },
                        ),
                        TimeoutState::White(ClockState::Stopped { clock_time: d }),
                    ),
                };
                match self.enter_timeout(now, running_ts, stopped_ts) {
                    Err(e) => {
                        return Err(e);
                    },
                    Ok(()) => {},
                }
                match color {
                    Color::Black => {
                        self.b_timeouts_used = self.b_timeouts_used + 1;
                    },
                    Color::White => {
                        self.w_timeouts_used = self.w_timeouts_used + 1;
                    },
                }
                Ok(())
            },
        }
    }

    /// White calls a timeout: the game clock stops and the timeout clock
    /// counts down from the team timeout length (running if the clock was).
    pub fn start_w_timeout(&mut self, now: u64) -> (r: Result<(), TournamentManagerError>)
        requires
            old(self)@.wf(),
            old(self)@.timeout_state is White ==> old(self)@.timeout_state.display_fits(now),
        ensures
            final(self)@.wf(),
            final(self)@ == old(self)@.start_team_timeout(Color::White, now).0,
            r == old(self)@.start_team_timeout(Color::White, now).1,
    {
        self.start_team_timeout(Color::White, now)
    }

    /// Black calls a timeout.
    pub fn start_b_timeout(&mut self, now: u64) -> (r: Result<(), TournamentManagerError>)
        requires
            old(self)@.wf(),
            old(self)@.timeout_state is Black ==> old(self)@.timeout_state.display_fits(now),
        ensures
            final(self)@.wf(),
            final(self)@ == old(self)@.start_team_timeout(Color::Black, now).0,
            r == old(self)@.start_team_timeout(Color::Black, now).1,
    {
        self.start_team_timeout(Color::Black, now)
    }

    /// The referees call a timeout, timed counting up from zero.
    pub fn start_ref_timeout(&mut self, now: u64) -> (r: Result<(), TournamentManagerError>)
        requires
            old(self)@.wf(),
            old(self)@.timeout_state is Ref ==> old(self)@.timeout_state.display_fits(now),
        ensures
            final(self)@.wf(),
            final(self)@ == old(self)@.start_ref_timeout(now).0,
            r == old(self)@.start_ref_timeout(now).1,
    {
        match self.can_start_ref_timeout(now) {
            Err(e) => Err(e),
            Ok(()) => self.enter_timeout(
                now,
                TimeoutState::Ref(ClockState::CountingUp { start_time: now, time_at_start: 0 }),
                TimeoutState::Ref(ClockState::Stopped { clock_time: 0 }),
            ),
        }
    }

    /// A penalty shot, timed counting up from zero.
    pub fn start_penalty_shot(&mut self, now: u64) -> (r: Result<(), TournamentManagerError>)
        requires
            old(self)@.wf(),
            old(self)@.timeout_state is PenaltyShot ==> old(self)@.timeout_state.display_fits(now),
        ensures
            final(self)@.wf(),
            final(self)@ == old(self)@.start_penalty_shot(now).0,
            r == old(self)@.start_penalty_shot(now).1,
    {
        match self.can_start_penalty_shot(now) {
            Err(e) => Err(e),
            Ok(()) => self.enter_timeout(
                now,
                TimeoutState::PenaltyShot(
                    ClockState::CountingUp { start_time: now, time_at_start: 0 },
                ),
                TimeoutState::PenaltyShot(ClockState::Stopped { clock_time: 0 }),
            ),
        }
    }

    fn switch_team_timeout(&mut self, color: Color) -> (r: Result<(), TournamentManagerError>)
        requires
            old(self)@.wf(),
        ensures
            final(self)@.wf(),
            final(self)@ == old(self)@.switch_team_timeout(color).0,
            r == old(self)@.switch_team_timeout(color).1,
    {
        match self.can_switch_to_team_timeout(color) {
            Err(e) => Err(e),
            Ok(()) => {
                match (color, self.timeout_state) {
                    (Color::White, TimeoutState::Black(cs)) => {
                        self.timeout_state = TimeoutState::White(cs);
                        self.w_timeouts_used = self.w_timeouts_used + 1;
                        self.b_timeouts_used = self.b_timeouts_used.saturating_sub(1);
                    },
                    (Color::Black, TimeoutState::White(cs)) => {
                        self.timeout_state = TimeoutState::Black(cs);
                        self.b_timeouts_used = self.b_timeouts_used + 1;
                        self.w_timeouts_used = self.w_timeouts_used.saturating_sub(1);
                    },
                    _ => {},
                }
                Ok(())
            },
        }
    }

    /// Turns a Black timeout into a White one.
    pub fn switch_to_w_timeout(&mut self) -> (r: Result<(), TournamentManagerError>)
        requires
            old(self)@.wf(),
        ensures
            final(self)@.wf(),
            final(self)@ == old(self)@.switch_team_timeout(Color::White).0,
            r == old(self)@.switch_team_timeout(Color::White).1,
    {
        self.switch_team_timeout(Color::White)
    }

    /// Turns a White timeout into a Black one.
    pub fn switch_to_b_timeout(&mut self) -> (r: Result<(), TournamentManagerError>)
        requires
            old(self)@.wf(),
        ensures
            final(self)@.wf(),
            final(self)@ == old(self)@.switch_team_timeout(Color::Black).0,
            r == old(self)@.switch_team_timeout(Color::Black).1,
    {
        self.switch_team_timeout(Color::Black)
    }

    pub fn switch_to_ref_timeout(&mut self) -> (r: Result<(), TournamentManagerError>)
        requires
            old(self)@.wf(),
        ensures
            final(self)@.wf(),
            final(self)@ == old(self)@.switch_to_ref_timeout().0,
            r == old(self)@.switch_to_ref_timeout().1,
    {
        match self.timeout_state {
            TimeoutState::PenaltyShot(cs) => {
                self.timeout_state = TimeoutState::Ref(cs);
                Ok(())
            },
            _ => Err(TournamentManagerError::NotInPenaltyShot),
        }
    }

    pub fn switch_to_penalty_shot(&mut self) -> (r: Result<(), TournamentManagerError>)
        requires
            old(self)@.wf(),
        ensures
            final(self)@.wf(),
            final(self)@ == old(self)@.switch_to_penalty_shot().0,
            r == old(self)@.switch_to_penalty_shot().1,
    {
        match self.can_switch_to_penalty_shot() {
            Err(e) => Err(e),
            Ok(()) => {
                match self.timeout_state {
                    TimeoutState::Ref(cs) => {
                        self.timeout_state = TimeoutState::PenaltyShot(cs);
                    },
                    _ => {},
                }
                Ok(())
            },
        }
    }

    pub fn end_timeout(&mut self, now: u64) -> (r: Result<(), TournamentManagerError>)
        requires
            old(self)@.wf(),
        ensures
            final(self)@.wf(),
            final(self)@ == old(self)@.end_timeout(now).0,
            r == old(self)@.end_timeout(now).1,
    {
        let cs = match self.timeout_state {
            TimeoutState::NoTimeout => {
                return Err(TournamentManagerError::NotInTimeout);
            },
            TimeoutState::Black(cs) => cs,
            TimeoutState::White(cs) => cs,
            TimeoutState::Ref(cs) => cs,
            TimeoutState::PenaltyShot(cs) => cs,
        };
        if cs.is_running() {
            self.start_game_clock(now);
        }
        self.timeout_state = TimeoutState::NoTimeout;
        Ok(())
    }
}

} // verus!

verus! {

impl TournamentManager {
    /// Sets both scores; in sudden death, unequal scores end the game.
    pub fn set_scores(&mut self, b_score: u8, w_score: u8, now: u64, wall_now: UtcTime)
        requires
            old(self)@.wf(),
        ensures
            final(self)@.wf(),
            final(self)@ == old(self)@.set_scores(b_score, w_score, now, wall_now@),
    {
        let end = self.current_period == GamePeriod::SuddenDeath && b_score != w_score;
        self.b_score = b_score;
        self.w_score = w_score;
        if end {
            self.end_game(now, wall_now);
        }
    }

    fn add_score(&mut self, color: Color, player_num: u8, now: u64, wall_now: UtcTime)
        requires
            old(self)@.wf(),
            color == Color::Black ==> old(self)@.b_score < 255,
            color == Color::White ==> old(self)@.w_score < 255,
        ensures
            final(self)@.wf(),
            final(self)@ == old(self)@.add_score(color, player_num, now, wall_now@),
    {
        self.recent_goal = match self.clock_state.clock_time(now) {
            Some(t) => Some((color, player_num, self.current_period, t)),
            None => None,
        };
        match color {
            Color::Black => self.set_scores(self.b_score + 1, self.w_score, now, wall_now),
            Color::White => self.set_scores(self.b_score, self.w_score + 1, now, wall_now),
        }
    }

    /// A goal by Black's player `player_num`.
    pub fn add_b_score(&mut self, player_num: u8, now: u64, wall_now: UtcTime)
        requires
            old(self)@.wf(),
            old(self)@.b_score < 255,
        ensures
            final(self)@.wf(),
            final(self)@ == old(self)@.add_score(Color::Black, player_num, now, wall_now@),
    {
        self.add_score(Color::Black, player_num, now, wall_now)
    }

    /// A goal by White's player `player_num`.
    pub fn add_w_score(&mut self, player_num: u8, now: u64, wall_now: UtcTime)
        requires
            old(self)@.wf(),
            old(self)@.w_score < 255,
        ensures
            final(self)@.wf(),
            final(self)@ == old(self)@.add_score(Color::White, player_num, now, wall_now@),
    {
        self.add_score(Color::White, player_num, now, wall_now)
    }

    /// Back to between games with cleared scores and penalties; the clock
    /// counts the minimum break, running if it was.
    pub fn reset_game(&mut self, now: u64)
        requires
            old(self)@.wf(),
        ensures
            final(self)@.wf(),
            final(self)@ == old(self)@.reset_game(now),
    {
        let was_running = self.clock_is_running();
        self.current_period = GamePeriod::BetweenGames;
        self.clock_state = ClockState::Stopped { clock_time: self.config.minimum_break };
        self.timeout_state = TimeoutState::NoTimeout;
        self.reset();
        if was_running {
            self.start_game_clock(now);
        }
    }

    /// Starts the clock that is showing: the timeout clock in a timeout,
    /// the game clock otherwise.
    pub fn start_clock(&mut self, now: u64)
        requires
            old(self)@.wf(),
        ensures
            final(self)@.wf(),
            final(self)@ == old(self)@.start_clock(now),
    {
        match self.timeout_state {
            TimeoutState::NoTimeout => {
                if self.start_game_clock(now) {
                    self.clock_running_signal = true;
                }
            },
            TimeoutState::Black(ClockState::Stopped { clock_time }) => {
                self.timeout_state = TimeoutState::Black(
                    ClockState::CountingDown { start_time: now, time_remaining_at_start: clock_time },
                );
                self.clock_running_signal = true;
            },
            TimeoutState::White(ClockState::Stopped { clock_time }) => {
                self.timeout_state = TimeoutState::White(
                    ClockState::CountingDown { start_time: now, time_remaining_at_start: clock_time },
                );
                self.clock_running_signal = true;
            },
            TimeoutState::Ref(ClockState::Stopped { clock_time }) => {
                self.timeout_state = TimeoutState::Ref(
                    ClockState::CountingUp { start_time: now, time_at_start: clock_time },
                );
                self.clock_running_signal = true;
            },
            TimeoutState::PenaltyShot(ClockState::Stopped { clock_time }) => {
                self.timeout_state = TimeoutState::PenaltyShot(
                    ClockState::CountingUp { start_time: now, time_at_start: clock_time },
                );
                self.clock_running_signal = true;
            },
            _ => {},
        }
    }

    /// Stops the clock that is showing at its reading.
    pub fn stop_clock(&mut self, now: u64) -> (r: Result<(), TournamentManagerError>)
        requires
            old(self)@.wf(),
        ensures
            final(self)@.wf(),
            final(self)@ == old(self)@.stop_clock(now).0,
            r == old(self)@.stop_clock(now).1,
    {
        let cs = match self.timeout_state {
            TimeoutState::NoTimeout => {
                let stopped = match self.stop_game_clock(now) {
                    Err(e) => {
                        return Err(e);
                    },
                    Ok(b) => b,
                };
                if stopped {
                    self.clock_running_signal = false;
                }
                return Ok(());
            },
            TimeoutState::Black(cs) => cs,
            TimeoutState::White(cs) => cs,
            TimeoutState::Ref(cs) => cs,
            TimeoutState::PenaltyShot(cs) => cs,
        };
        if cs.is_running() {
            let t = match cs.clock_time(now) {
                None => {
                    return Err(TournamentManagerError::NeedsUpdate);
                },
                Some(t) => t,
            };
            let stopped = ClockState::Stopped { clock_time: t };
            self.timeout_state = match self.timeout_state {
                TimeoutState::Black(_) => TimeoutState::Black(stopped),
                TimeoutState::White(_) => TimeoutState::White(stopped),
                TimeoutState::Ref(_) => TimeoutState::Ref(stopped),
                TimeoutState::PenaltyShot(_) => TimeoutState::PenaltyShot(stopped),
                TimeoutState::NoTimeout => TimeoutState::NoTimeout,
            };
            self.clock_running_signal = false;
        }
        Ok(())
    }

    /// Stops a counting-down game clock outside a timeout.
    pub fn halt_clock(&mut self, now: u64) -> (r: Result<(), TournamentManagerError>)
        requires
            old(self)@.wf(),
            old(self)@.timeout_state.display_fits(now),
        ensures
            final(self)@.wf(),
            final(self)@ == old(self)@.halt_clock(now).0,
            r == old(self)@.halt_clock(now).1,
    {
        if !matches!(self.timeout_state, TimeoutState::NoTimeout) {
            return Err(TournamentManagerError::AlreadyInTimeout(self.timeout_state.as_snapshot(now)));
        }
        match self.clock_state {
            ClockState::CountingDown { start_time, .. } => {
                let clock_time = match self.clock_state.clock_time(now) {
                    Some(t) => t,
                    None => {
                        if now < start_time {
                            return Err(TournamentManagerError::InvalidNowValue);
                        }
                        1
                    },
                };
                self.clock_state = ClockState::Stopped { clock_time };
                self.clock_running_signal = false;
                Ok(())
            },
            _ => Err(TournamentManagerError::InvalidState),
        }
    }

    /// The referees start the next period of play now: from between games
    /// (a new game), half time, pre-overtime, overtime half time or
    /// pre-sudden death.
    pub fn start_play_now(&mut self, now: u64) -> (r: Result<(), TournamentManagerError>)
        requires
            old(self)@.wf(),
            old(self)@.timeout_state.display_fits(now),
            old(self)@.timeout_state is NoTimeout && old(self)@.current_period
                == GamePeriod::BetweenGames ==> old(self)@.next_number() <= u32::MAX,
        ensures
            final(self)@.wf(),
            final(self)@ == old(self)@.start_play_now(now).0,
            r == old(self)@.start_play_now(now).1,
    {
        if !matches!(self.timeout_state, TimeoutState::NoTimeout) {
            return Err(TournamentManagerError::AlreadyInTimeout(self.timeout_state.as_snapshot(now)));
        }
        let was_running = self.clock_is_running();
        let mut need_cull = false;
        match self.current_period {
            GamePeriod::FirstHalf | GamePeriod::SecondHalf | GamePeriod::OvertimeFirstHalf
            | GamePeriod::OvertimeSecondHalf | GamePeriod::SuddenDeath => {
                return Err(TournamentManagerError::AlreadyInPlayPeriod);
            },
            GamePeriod::BetweenGames => {
                self.start_game(now);
            },
            GamePeriod::HalfTime => {
                self.current_period = GamePeriod::SecondHalf;
                self.w_timeouts_used = 0;
                self.b_timeouts_used = 0;
                need_cull = true;
            },
            GamePeriod::PreOvertime => {
                self.current_period = GamePeriod::OvertimeFirstHalf;
                need_cull = true;
            },
            GamePeriod::OvertimeHalfTime => {
                self.current_period = GamePeriod::OvertimeSecondHalf;
                need_cull = true;
            },
            GamePeriod::PreSuddenDeath => {
                self.current_period = GamePeriod::SuddenDeath;
                need_cull = true;
            },
        }
        if self.current_period == GamePeriod::SuddenDeath {
            self.clock_state = ClockState::CountingUp { start_time: now, time_at_start: 0 };
        } else {
            let d = match self.config.period_duration(self.current_period) {
                Some(d) => d,
                None => 0,
            };
            self.clock_state = ClockState::CountingDown { start_time: now, time_remaining_at_start: d };
        }
        if need_cull {
            match self.cull_penalties(now) {
                Err(e) => {
                    return Err(e);
                },
                Ok(()) => {},
            }
        }
        if !was_running {
            self.clock_running_signal = true;
        }
        Ok(())
    }

    /// Sets the game clock while the clock is stopped.
    pub fn set_game_clock_time(&mut self, clock_time: u64) -> (r: Result<
        (),
        TournamentManagerError,
    >)
        requires
            old(self)@.wf(),
        ensures
            final(self)@.wf(),
            final(self)@ == old(self)@.set_game_clock_time(clock_time).0,
            r == old(self)@.set_game_clock_time(clock_time).1,
    {
        if !self.clock_is_running() {
            self.clock_state = ClockState::Stopped { clock_time };
            Ok(())
        } else {
            Err(TournamentManagerError::ClockIsRunning)
        }
    }

    /// Sets the timeout clock while the clock is stopped.
    pub fn set_timeout_clock_time(&mut self, clock_time: u64) -> (r: Result<
        (),
        TournamentManagerError,
    >)
        requires
            old(self)@.wf(),
        ensures
            final(self)@.wf(),
            final(self)@ == old(self)@.set_timeout_clock_time(clock_time).0,
            r == old(self)@.set_timeout_clock_time(clock_time).1,
    {
        if self.clock_is_running() {
            return Err(TournamentManagerError::ClockIsRunning);
        }
        let new_cs = ClockState::Stopped { clock_time };
        match self.timeout_state {
            TimeoutState::Black(_) => {
                self.timeout_state = TimeoutState::Black(new_cs);
            },
            TimeoutState::White(_) => {
                self.timeout_state = TimeoutState::White(new_cs);
            },
            TimeoutState::Ref(_) => {
                self.timeout_state = TimeoutState::Ref(new_cs);
            },
            TimeoutState::PenaltyShot(_) => {
                self.timeout_state = TimeoutState::PenaltyShot(new_cs);
            },
            TimeoutState::NoTimeout => {
                return Err(TournamentManagerError::NotInTimeout);
            },
        }
        Ok(())
    }

    /// The game clock's reading at `now`: none when `now` is before the
    /// clock started or a countdown has passed zero.
    pub fn game_clock_time(&self, now: u64) -> (r: Option<u64>)
        ensures
            r == self@.game_time(now),
    {
        self.clock_state.clock_time(now)
    }

    /// The timeout clock's reading at `now`; none outside a timeout.
    pub fn timeout_clock_time(&self, now: u64) -> (r: Option<u64>)
        ensures
            r == self@.timeout_time(now),
    {
        match self.timeout_state {
            TimeoutState::NoTimeout => None,
            TimeoutState::Black(cs) => cs.clock_time(now),
            TimeoutState::White(cs) => cs.clock_time(now),
            TimeoutState::Ref(cs) => cs.clock_time(now),
            TimeoutState::PenaltyShot(cs) => cs.clock_time(now),
        }
    }

    /// Whether the game would end if `update` were called at `now`.
    pub fn would_end_game(&self, now: u64) -> (r: Result<bool, TournamentManagerError>)
        ensures
            r == self@.would_end_game(now),
    {
        match self.clock_state {
            ClockState::CountingDown { start_time, time_remaining_at_start } => {
                if now < start_time {
                    return Err(TournamentManagerError::InvalidNowValue);
                }
                let tied = self.b_score == self.w_score;
                Ok(now - start_time >= time_remaining_at_start && ((self.current_period
                    == GamePeriod::SecondHalf && (!tied || (!self.config.overtime_allowed
                    && !self.config.sudden_death_allowed))) || (self.current_period
                    == GamePeriod::OvertimeSecondHalf && (!tied
                    || !self.config.sudden_death_allowed))))
            },
            _ => Ok(false),
        }
    }

    /// Counts down to the announced next game, under its timing rules.
    pub fn apply_next_game_start(&mut self, now: u64, wall_now: UtcTime) -> (r: Result<
        (),
        TournamentManagerError,
    >)
        requires
            old(self)@.wf(),
        ensures
            final(self)@.wf(),
            final(self)@ == old(self)@.apply_next_game_start(now, wall_now@).0,
            r == old(self)@.apply_next_game_start(now, wall_now@).1,
    {
        if self.current_period != GamePeriod::BetweenGames {
            return Err(TournamentManagerError::GameInProgress);
        }
        let info = match self.next_game {
            Some(info) => info,
            None => {
                return Err(TournamentManagerError::NoNextGameInfo);
            },
        };
        match info.timing {
            Some(c) => {
                self.config = c;
            },
            None => {},
        }
        let t = self.calc_time_to_next_game(now, now, wall_now);
        self.clock_state = ClockState::CountingDown { start_time: now, time_remaining_at_start: t };
        Ok(())
    }
}

} // verus!

verus! {

/// The display's view of each penalty of `list`; none when any one's time
/// is unknown.
pub open spec fn penalty_snapshots(
    list: Seq<Penalty>,
    per: GamePeriod,
    time: u64,
    cfg: GameConfig,
) -> Option<Seq<PenaltySnapshot>>
    decreases list.len(),
{
    if list.len() == 0 {
        Some(Seq::empty())
    } else {
        match penalty_snapshots(list.drop_last(), per, time, cfg) {
            None => None,
            Some(front) => match list.last().snapshot(per, time, cfg) {
                None => None,
                Some(s) => Some(front.push(s)),
            },
        }
    }
}

proof fn lemma_snapshots_stay_none(
    list: Seq<Penalty>,
    j: int,
    t: int,
    per: GamePeriod,
    time: u64,
    cfg: GameConfig,
)
    requires
        0 <= j <= t <= list.len(),
        penalty_snapshots(list.take(j), per, time, cfg) is None,
    ensures
        penalty_snapshots(list.take(t), per, time, cfg) is None,
    decreases t - j,
{
    if t > j {
        lemma_snapshots_stay_none(list, j, t - 1, per, time, cfg);
        assert(list.take(t).drop_last() =~= list.take(t - 1));
    }
}

fn snapshot_list(list: &Vec<Penalty>, per: GamePeriod, time: u64, cfg: &GameConfig) -> (r: Option<
    Vec<PenaltySnapshot>,
>)
    ensures
        r matches Some(v) ==> penalty_snapshots(list@, per, time, *cfg) == Some(v@),
        r is None ==> penalty_snapshots(list@, per, time, *cfg) is None,
{
    let mut out: Vec<PenaltySnapshot> = Vec::new();
    let mut i: usize = 0;
    while i < list.len()
        invariant
            0 <= i <= list.len(),
            penalty_snapshots(list@.take(i as int), per, time, *cfg) == Some(out@),
        decreases list.len() - i,
    {
        let pen = list[i];
        assert(list@.take(i as int + 1).drop_last() =~= list@.take(i as int));
        assert(list@.take(i as int + 1).last() == pen);
        match pen.as_snapshot(per, time, cfg) {
            None => {
                proof {
                    lemma_snapshots_stay_none(
                        list@,
                        i as int + 1,
                        list@.len() as int,
                        per,
                        time,
                        *cfg,
                    );
                    assert(list@.take(list@.len() as int) =~= list@);
                }
                return None;
            },
            Some(s) => {
                out.push(s);
            },
        }
        i = i + 1;
    }
    assert(list@.take(list@.len() as int) =~= list@);
    Some(out)
}

fn copy_list(list: &Vec<Penalty>) -> (r: Vec<Penalty>)
    ensures
        r@ == list@,
{
    let mut out: Vec<Penalty> = Vec::new();
    let mut i: usize = 0;
    while i < list.len()
        invariant
            0 <= i <= list.len(),
            out@ == list@.take(i as int),
        decreases list.len() - i,
    {
        out.push(list[i]);
        i = i + 1;
        assert(out@ =~= list@.take(i as int));
    }
    assert(list@.take(list@.len() as int) =~= list@);
    out
}

/// What the scoreboard shows.
#[derive(Debug, Clone, PartialEq, Eq)]
pub struct GameSnapshot {
    pub current_period: GamePeriod,
    pub secs_in_period: u32,
    pub timeout: TimeoutSnapshot,
    pub b_score: u8,
    pub w_score: u8,
    pub b_penalties: Vec<PenaltySnapshot>,
    pub w_penalties: Vec<PenaltySnapshot>,
    pub is_old_game: bool,
    pub game_number: u32,
    pub next_game_number: u32,
    pub tournament_id: u32,
    pub recent_goal: Option<(Color, u8)>,
    pub next_period_len_secs: Option<u32>,
}

impl TournamentState {
    /// The recent goal is forgotten once the period changes or the game
    /// clock has moved more than `RECENT_GOAL_TIME` past it.
    pub open spec fn goal_still_recent(self, cur_time: u64) -> bool {
        match self.recent_goal {
            Some((_, _, per, t)) => per == self.current_period && since(t, cur_time)
                <= RECENT_GOAL_TIME,
            None => true,
        }
    }

    /// Whether the scoreboard can be drawn at `now`: the game clock has a
    /// reading that fits the display's seconds, and every penalty's time is
    /// known.
    pub open spec fn snapshot_ok(self, now: u64) -> bool {
        match self.game_time(now) {
            None => false,
            Some(t) => t / 1_000_000_000 <= u32::MAX && penalty_snapshots(
                self.b_penalties,
                self.current_period,
                t,
                self.config,
            ) is Some && penalty_snapshots(self.w_penalties, self.current_period, t, self.config)
                is Some,
        }
    }

    /// The instant after `now` at which the shown clock next changes whole
    /// second.
    pub open spec fn next_update(self, now: u64) -> Option<u64> {
        match self.timeout_state {
            TimeoutState::Ref(cs) => match cs.reading(now) {
                Some(ct) => Some(next_second_up(now, ct)),
                None => None,
            },
            TimeoutState::PenaltyShot(cs) => match cs.reading(now) {
                Some(ct) => Some(next_second_up(now, ct)),
                None => None,
            },
            TimeoutState::Black(cs) => match cs.reading(now) {
                Some(ct) => Some(next_second_down(now, ct)),
                None => None,
            },
            TimeoutState::White(cs) => match cs.reading(now) {
                Some(ct) => Some(next_second_down(now, ct)),
                None => None,
            },
            TimeoutState::NoTimeout => match self.clock_state.reading(now) {
                Some(ct) => Some(
                    if self.current_period == GamePeriod::SuddenDeath {
                        next_second_up(now, ct)
                    } else {
                        next_second_down(now, ct)
                    },
                ),
                None => None,
            },
        }
    }
}

impl TournamentManager {
    pub fn start_penalty(&mut self, color: Color, player_number: u8, kind: PenaltyKind, now: u64) -> (r:
        Result<(), TournamentManagerError>)
        requires
            old(self)@.wf(),
        ensures
            final(self)@.wf(),
            final(self)@ == old(self)@.start_penalty(color, player_number, kind, now).0,
            r == old(self)@.start_penalty(color, player_number, kind, now).1,
    {
        let start_time = match self.clock_state.clock_time(now) {
            Some(t) => t,
            None => {
                return Err(TournamentManagerError::InvalidNowValue);
            },
        };
        let penalty = Penalty {
            kind,
            player_number,
            start_period: self.current_period,
            start_time,
        };
        match color {
            Color::Black => self.b_penalties.push(penalty),
            Color::White => self.w_penalties.push(penalty),
        }
        Ok(())
    }

    pub fn delete_penalty(&mut self, color: Color, index: usize) -> (r: Result<
        (),
        TournamentManagerError,
    >)
        requires
            old(self)@.wf(),
        ensures
            final(self)@.wf(),
            final(self)@ == old(self)@.delete_penalty(color, index).0,
            r == old(self)@.delete_penalty(color, index).1,
    {
        match color {
            Color::Black => {
                if index >= self.b_penalties.len() {
                    return Err(TournamentManagerError::InvalidIndex(color, index));
                }
                self.b_penalties.remove(index);
            },
            Color::White => {
                if index >= self.w_penalties.len() {
                    return Err(TournamentManagerError::InvalidIndex(color, index));
                }
                self.w_penalties.remove(index);
            },
        }
        Ok(())
    }

    pub fn edit_penalty(
        &mut self,
        old_color: Color,
        index: usize,
        new_color: Color,
        new_player_number: u8,
        new_kind: PenaltyKind,
    ) -> (r: Result<(), TournamentManagerError>)
        requires
            old(self)@.wf(),
        ensures
            final(self)@.wf(),
            final(self)@ == old(self)@.edit_penalty(
                old_color,
                index,
                new_color,
                new_player_number,
                new_kind,
            ).0,
            r == old(self)@.edit_penalty(
                old_color,
                index,
                new_color,
                new_player_number,
                new_kind,
            ).1,
    {
        let len = match old_color {
            Color::Black => self.b_penalties.len(),
            Color::White => self.w_penalties.len(),
        };
        if index >= len {
            return Err(TournamentManagerError::InvalidIndex(old_color, index));
        }
        let mut pen = match old_color {
            Color::Black => self.b_penalties[index],
            Color::White => self.w_penalties[index],
        };
        pen.player_number = new_player_number;
        pen.kind = new_kind;
        match (old_color, new_color) {
            (Color::Black, Color::Black) => {
                self.b_penalties.set(index, pen);
            },
            (Color::White, Color::White) => {
                self.w_penalties.set(index, pen);
            },
            (Color::Black, Color::White) => {
                self.b_penalties.remove(index);
                self.w_penalties.push(pen);
            },
            (Color::White, Color::Black) => {
                self.w_penalties.remove(index);
                self.b_penalties.push(pen);
            },
        }
        Ok(())
    }

    /// Removes served penalties of `color`, first ones first, until at most
    /// `limit` remain.
    pub fn limit_pen_list_len(&mut self, color: Color, limit: usize, now: u64) -> (r: Result<
        (),
        TournamentManagerError,
    >)
        requires
            old(self)@.wf(),
        ensures
            final(self)@.wf(),
            final(self)@ == old(self)@.limit_pen_list_len(color, limit, now).0,
            r == old(self)@.limit_pen_list_len(color, limit, now).1,
    {
        let time = match self.clock_state.clock_time(now) {
            Some(t) => t,
            None => {
                return Err(TournamentManagerError::InvalidNowValue);
            },
        };
        let period = self.current_period;
        let cfg = self.config;
        match color {
            Color::Black => limit_list(&mut self.b_penalties, limit, period, time, &cfg),
            Color::White => limit_list(&mut self.w_penalties, limit, period, time, &cfg),
        }
    }

    /// Both teams' penalties.
    pub fn get_penalties(&self) -> (r: BlackWhiteBundle<Vec<Penalty>>)
        ensures
            r.black@ == self@.b_penalties,
            r.white@ == self@.w_penalties,
    {
        BlackWhiteBundle { black: copy_list(&self.b_penalties), white: copy_list(&self.w_penalties) }
    }

    /// What the scoreboard shows at `now`; none when the game clock has no
    /// reading, its seconds do not fit, or a penalty's time is unknown.
    /// Forgets the recent goal once it is no longer recent.
    pub fn generate_snapshot(&mut self, now: u64) -> (r: Option<GameSnapshot>)
        requires
            old(self)@.wf(),
            old(self)@.snapshot_ok(now) ==> old(self)@.timeout_state.display_fits(now),
            old(self)@.snapshot_ok(now) ==> old(self)@.next_number() <= u32::MAX,
        ensures
            final(self)@.wf(),
            r is Some <==> old(self)@.snapshot_ok(now),
            !old(self)@.snapshot_ok(now) ==> final(self)@ == old(self)@,
            r matches Some(s) ==> {
                let st = old(self)@;
                let t = st.game_time(now).unwrap();
                &&& final(self)@ == (if st.goal_still_recent(t) {
                    st
                } else {
                    TournamentState { recent_goal: None, ..st }
                })
                &&& s.current_period == st.current_period
                &&& s.secs_in_period == t / 1_000_000_000
                &&& s.timeout == st.timeout_state.snapshot(now)
                &&& s.b_score == st.b_score
                &&& s.w_score == st.w_score
                &&& Some(s.b_penalties@) == penalty_snapshots(
                    st.b_penalties,
                    st.current_period,
                    t,
                    st.config,
                )
                &&& Some(s.w_penalties@) == penalty_snapshots(
                    st.w_penalties,
                    st.current_period,
                    t,
                    st.config,
                )
                &&& s.is_old_game == !st.has_reset
                &&& s.game_number == st.game_number
                &&& s.next_game_number == st.next_number()
                &&& s.tournament_id == 0
                &&& s.recent_goal == (match final(self)@.recent_goal {
                    Some((c, n, _, _)) => Some((c, n)),
                    None => None,
                })
                &&& s.next_period_len_secs == (match st.config.next_duration(st.current_period) {
                    Some(d) => Some(
                        if d / 1_000_000_000 <= u32::MAX {
                            (d / 1_000_000_000) as u32
                        } else {
                            0
                        },
                    ),
                    None => None,
                })
            },
    {
        let cur_time = match self.clock_state.clock_time(now) {
            Some(t) => t,
            None => {
                return None;
            },
        };
        let secs = cur_time / 1_000_000_000;
        if secs > 4_294_967_295 {
            return None;
        }
        let secs_in_period = secs as u32;
        let b_penalties = match snapshot_list(&self.b_penalties, self.current_period, cur_time, &self.config) {
            Some(v) => v,
            None => {
                return None;
            },
        };
        let w_penalties = match snapshot_list(&self.w_penalties, self.current_period, cur_time, &self.config) {
            Some(v) => v,
            None => {
                return None;
            },
        };
        match self.recent_goal {
            Some((_, _, goal_per, goal_time)) => {
                if goal_per != self.current_period || goal_time.saturating_sub(cur_time)
                    > RECENT_GOAL_TIME {
                    self.recent_goal = None;
                }
            },
            None => {},
        }
        let next_period_len_secs = match self.current_period.next_period() {
            Some(p) => match self.config.period_duration(p) {
                Some(d) => {
                    let s = d / 1_000_000_000;
                    Some(
                        if s <= 4_294_967_295 {
                            s as u32
                        } else {
                            0
                        },
                    )
                },
                None => None,
            },
            None => None,
        };
        let recent_goal = match self.recent_goal {
            Some((c, n, _, _)) => Some((c, n)),
            None => None,
        };
        Some(
            GameSnapshot {
                current_period: self.current_period,
                secs_in_period,
                timeout: self.timeout_state.as_snapshot(now),
                b_score: self.b_score,
                w_score: self.w_score,
                b_penalties,
                w_penalties,
                is_old_game: !self.has_reset,
                game_number: self.game_number,
                next_game_number: self.next_game_number(),
                tournament_id: 0,
                recent_goal,
                next_period_len_secs,
            },
        )
    }

    /// When the shown clock next changes whole second; none when it has no
    /// reading at `now`.
    pub fn next_update_time(&self, now: u64) -> (r: Option<u64>)
        ensures
            r == self@.next_update(now),
    {
        let (cs, up) = match self.timeout_state {
            TimeoutState::Ref(cs) => (cs, true),
            TimeoutState::PenaltyShot(cs) => (cs, true),
            TimeoutState::Black(cs) => (cs, false),
            TimeoutState::White(cs) => (cs, false),
            TimeoutState::NoTimeout => (
                self.clock_state,
                self.current_period == GamePeriod::SuddenDeath,
            ),
        };
        match cs.clock_time(now) {
            Some(ct) => {
                let sub = ct % 1_000_000_000;
                if up {
                    Some(sat_add(now, 1_000_000_000 - sub))
                } else {
                    Some(sat_add(now, sub))
                }
            },
            None => None,
        }
    }
}

} // verus!

verus! {

/// `n` (below 100) in two decimal digits.
pub open spec fn two_digits(n: nat) -> Seq<char> {
    if n < 10 {
        "0"@ + digit_text(n as int)
    } else {
        decimal(n)
    }
}

/// Penalty time left as the penalty editor shows it: minutes, a colon, and
/// two digits of seconds, e.g. `1:05`.
pub open spec fn minutes_seconds_text(secs: nat) -> Seq<char> {
    decimal(secs / 60) + ":"@ + two_digits(secs % 60)
}

fn minutes_seconds_string(secs: u64) -> (r: String)
    ensures
        r@ == minutes_seconds_text(secs as nat),
{
    let s = decimal_string(secs / 60).concat(":");
    let rest = secs % 60;
    if rest < 10 {
        s.concat("0").concat(digit_str(rest))
    } else {
        s.concat(decimal_string(rest).as_str())
    }
}

impl TournamentState {
    /// A penalty's time as the penalty editor shows it: `Served`, the time
    /// left (`m:ss`), or `DSMS` for a total dismissal; none when its state
    /// is unknown.
    pub open spec fn penalty_time_text(self, pen: Penalty, now: u64) -> Option<Seq<char>> {
        match self.game_time(now) {
            None => None,
            Some(t) => match pen.complete(self.current_period, t, self.config) {
                None => None,
                Some(true) => Some("Served"@),
                Some(false) => match pen.remaining(self.current_period, t, self.config) {
                    Some(left) => Some(minutes_seconds_text((left / 1_000_000_000) as nat)),
                    None => Some("DSMS"@),
                },
            },
        }
    }
}

impl TournamentManager {
    pub fn printable_penalty_time(&self, pen: &Penalty, now: u64) -> (r: Option<String>)
        ensures
            r matches Some(s) ==> self@.penalty_time_text(*pen, now) == Some(s@),
            r is None ==> self@.penalty_time_text(*pen, now) is None,
    {
        let cur_time = match self.clock_state.clock_time(now) {
            Some(t) => t,
            None => {
                return None;
            },
        };
        match pen.is_complete(self.current_period, cur_time, &self.config) {
            None => None,
            Some(true) => Some(String::from_str("Served")),
            Some(false) => match pen.time_remaining(self.current_period, cur_time, &self.config) {
                Some(left) => Some(minutes_seconds_string(left / 1_000_000_000)),
                None => Some(String::from_str("DSMS")),
            },
        }
    }
}

} // verus!

verus! {

/// Within a game, `update` only ever moves the period forward in playing
/// order; the only way back is to between games, when a game ends.
pub proof fn lemma_update_moves_forward(s: TournamentState, now: u64, wall: int)
    requires
        s.wf(),
    ensures
        ({
            let p = s.update(now, wall).0.current_period;
            p == s.current_period || p.ord() > s.current_period.ord() || p
                == GamePeriod::BetweenGames
        }),
{
}

/// Starting or stopping the clock does not change what the game clock or
/// the timeout clock shows at that instant, and a stopped clock then keeps
/// showing it.
pub proof fn lemma_start_stop_keep_reading(s: TournamentState, now: u64, later: u64)
    requires
        s.wf(),
    ensures
        s.start_clock(now).game_time(now) == s.game_time(now),
        s.start_clock(now).timeout_time(now) == s.timeout_time(now),
        s.stop_clock(now).1 is Ok ==> s.stop_clock(now).0.game_time(now) == s.game_time(now),
        s.stop_clock(now).1 is Ok ==> s.stop_clock(now).0.timeout_time(now) == s.timeout_time(
            now,
        ),
        s.stop_clock(now).1 is Ok && s.timeout_state is NoTimeout ==> s.stop_clock(now).0.game_time(
            later,
        ) == s.game_time(now),
        s.stop_clock(now).1 is Ok && !(s.timeout_state is NoTimeout) ==> s.stop_clock(
            now,
        ).0.timeout_time(later) == s.timeout_time(now),
{
}

/// Switching a Black timeout to White and back restores the state, when
/// Black had used the timeout being switched and is within its allowance.
pub proof fn lemma_switch_back_restores(s: TournamentState)
    requires
        s.wf(),
        s.timeout_state is Black,
        s.b_timeouts_used >= 1,
        s.b_timeouts_used <= s.config.team_timeouts_per_half,
        s.w_timeouts_used < s.config.team_timeouts_per_half,
    ensures
        s.switch_team_timeout(Color::White).1 is Ok,
        s.switch_team_timeout(Color::White).0.switch_team_timeout(Color::Black).1 is Ok,
        s.switch_team_timeout(Color::White).0.switch_team_timeout(Color::Black).0 == s,
{
}

/// Calling or switching to a timeout never takes a team past its allowance
/// for the half.
pub proof fn lemma_timeouts_within_allowance(s: TournamentState, color: Color, now: u64)
    requires
        s.wf(),
        s.timeouts_used(color) <= s.config.team_timeouts_per_half,
    ensures
        s.start_team_timeout(color, now).0.timeouts_used(color)
            <= s.config.team_timeouts_per_half,
        s.switch_team_timeout(color).0.timeouts_used(color) <= s.config.team_timeouts_per_half,
{
}

/// In sudden death, the first unequal score ends the game.
pub proof fn lemma_sudden_death_goal_ends_game(s: TournamentState, b: u8, w: u8, now: u64, wall: int)
    requires
        s.wf(),
        s.current_period == GamePeriod::SuddenDeath,
        b != w,
    ensures
        s.set_scores(b, w, now, wall).current_period == GamePeriod::BetweenGames,
        s.set_scores(b, w, now, wall).b_score == b,
        s.set_scores(b, w, now, wall).w_score == w,
{
}

/// The countdown between games lasts at least the minimum break (or
/// `MAX_TIME_VAL`, if that is shorter) and at most `MAX_TIME_VAL`.
pub proof fn lemma_break_length_bounded(s: TournamentState, now: u64, wall: int)
    requires
        s.wf(),
    ensures
        ({
            let e = s.end_game(now, wall);
            e.clock_state matches ClockState::CountingDown { time_remaining_at_start, .. } && (
            time_remaining_at_start <= MAX_TIME_VAL) && (time_remaining_at_start
                >= s.config.minimum_break || time_remaining_at_start == MAX_TIME_VAL)
        }),
{
}

/// Once the clock is halted, `update` leaves the period and the clock as
/// they are, whenever it is called.
pub proof fn lemma_halted_clock_stays(s: TournamentState, now: u64, later: u64, wall: int)
    requires
        s.wf(),
        s.halt_clock(now).1 is Ok,
    ensures
        s.halt_clock(now).0.update(later, wall).0 == s.halt_clock(now).0,
        s.halt_clock(now).0.update(later, wall).1 is Ok,
{
}

proof fn lemma_first_complete_in_range(
    list: Seq<Penalty>,
    k: int,
    per: GamePeriod,
    time: u64,
    cfg: GameConfig,
)
    requires
        0 <= k,
    ensures
        first_complete(list, k, per, time, cfg) matches Some(Some(i)) ==> k <= i < list.len(),
    decreases list.len() - k,
{
    if k < list.len() {
        lemma_first_complete_in_range(list, k + 1, per, time, cfg);
    }
}

/// Whether the served state of every penalty of `list` is known at the
/// reading `time` of period `per`.
pub open spec fn states_known(list: Seq<Penalty>, per: GamePeriod, time: u64, cfg: GameConfig) -> bool {
    forall|i: int| 0 <= i < list.len() ==> (#[trigger] list[i].complete(per, time, cfg)) is Some
}

/// How many penalties of `list` are served.
pub open spec fn served_count(list: Seq<Penalty>, per: GamePeriod, time: u64, cfg: GameConfig) -> nat
    decreases list.len(),
{
    if list.len() == 0 {
        0
    } else {
        (if list[0].complete(per, time, cfg) == Some(true) {
            1nat
        } else {
            0nat
        }) + served_count(list.drop_first(), per, time, cfg)
    }
}

/// `list` without its first `n` served penalties, the rest in their order.
pub open spec fn without_first_served(
    list: Seq<Penalty>,
    n: nat,
    per: GamePeriod,
    time: u64,
    cfg: GameConfig,
) -> Seq<Penalty>
    decreases list.len(),
{
    if list.len() == 0 {
        Seq::empty()
    } else if n > 0 && list[0].complete(per, time, cfg) == Some(true) {
        without_first_served(list.drop_first(), (n - 1) as nat, per, time, cfg)
    } else {
        seq![list[0]] + without_first_served(list.drop_first(), n, per, time, cfg)
    }
}

proof fn lemma_without_none_served(list: Seq<Penalty>, per: GamePeriod, time: u64, cfg: GameConfig)
    ensures
        without_first_served(list, 0, per, time, cfg) == list,
    decreases list.len(),
{
    if list.len() > 0 {
        lemma_without_none_served(list.drop_first(), per, time, cfg);
        assert(seq![list[0]] + list.drop_first() =~= list);
    }
}

proof fn lemma_first_complete_shift(
    list: Seq<Penalty>,
    k: int,
    per: GamePeriod,
    time: u64,
    cfg: GameConfig,
)
    requires
        0 <= k,
        list.len() > 0,
    ensures
        first_complete(list, k + 1, per, time, cfg) == match first_complete(
            list.drop_first(),
            k,
            per,
            time,
            cfg,
        ) {
            None => None,
            Some(None) => Some(None),
            Some(Some(i)) => Some(Some(i + 1)),
        },
    decreases list.len() - k,
{
    if k + 1 < list.len() {
        assert(list.drop_first()[k] == list[k + 1]);
        lemma_first_complete_shift(list, k + 1, per, time, cfg);
    }
}

/// With every state known, the search finds something, and finds no
/// served penalty only when none is served.
proof fn lemma_first_complete_known(list: Seq<Penalty>, per: GamePeriod, time: u64, cfg: GameConfig)
    requires
        states_known(list, per, time, cfg),
    ensures
        first_complete(list, 0, per, time, cfg) is Some,
        first_complete(list, 0, per, time, cfg) == Some(None::<int>) ==> served_count(
            list,
            per,
            time,
            cfg,
        ) == 0,
    decreases list.len(),
{
    if list.len() > 0 {
        let d = list.drop_first();
        assert(list[0].complete(per, time, cfg) is Some);
        assert forall|i: int| 0 <= i < d.len() implies (#[trigger] d[i].complete(
            per,
            time,
            cfg,
        )) is Some by {
            assert(d[i] == list[i + 1]);
        }
        lemma_first_complete_known(d, per, time, cfg);
        lemma_first_complete_shift(list, 0, per, time, cfg);
    }
}

/// Removing the first served penalty counts as one of the first served
/// removals, and leaves one served penalty fewer.
proof fn lemma_remove_first_served(
    list: Seq<Penalty>,
    i: int,
    m: nat,
    per: GamePeriod,
    time: u64,
    cfg: GameConfig,
)
    requires
        first_complete(list, 0, per, time, cfg) == Some(Some(i)),
        0 <= i < list.len(),
    ensures
        without_first_served(list.remove(i), m, per, time, cfg) == without_first_served(
            list,
            m + 1,
            per,
            time,
            cfg,
        ),
        served_count(list.remove(i), per, time, cfg) + 1 == served_count(list, per, time, cfg),
    decreases i,
{
    lemma_first_complete_in_range(list, 1, per, time, cfg);
    if i == 0 {
        assert(list[0].complete(per, time, cfg) == Some(true));
        assert(list.remove(0) =~= list.drop_first());
    } else {
        let d = list.drop_first();
        assert(list[0].complete(per, time, cfg) == Some(false));
        assert(first_complete(list, 0, per, time, cfg) == first_complete(list, 1, per, time, cfg));
        lemma_first_complete_shift(list, 0, per, time, cfg);
        assert(first_complete(d, 0, per, time, cfg) == Some(Some(i - 1)));
        lemma_remove_first_served(d, i - 1, m, per, time, cfg);
        let r = list.remove(i);
        assert(r.drop_first() =~= d.remove(i - 1));
        assert(r[0] == list[0]);
    }
}

/// Which penalties limiting a list removes, when every one's served state is
/// known: a list within the limit stays as it is; otherwise, when enough
/// penalties are served, the first served ones are removed (as many as the
/// list is over the limit) and the rest stay in order; otherwise the
/// request is refused as too many penalties, and every served penalty has
/// been removed.
pub proof fn lemma_limited_removes_first_served(
    list: Seq<Penalty>,
    limit: usize,
    per: GamePeriod,
    time: u64,
    cfg: GameConfig,
)
    requires
        states_known(list, per, time, cfg),
    ensures
        list.len() <= limit ==> limited(list, limit, per, time, cfg) == (list, Ok::<
            (),
            TournamentManagerError,
        >(())),
        list.len() > limit && list.len() - served_count(list, per, time, cfg) <= limit ==> limited(
            list,
            limit,
            per,
            time,
            cfg,
        ) == (
            without_first_served(list, (list.len() - limit) as nat, per, time, cfg),
            Ok::<(), TournamentManagerError>(()),
        ),
        list.len() - served_count(list, per, time, cfg) > limit ==> limited(
            list,
            limit,
            per,
            time,
            cfg,
        ) == (
            without_first_served(list, served_count(list, per, time, cfg), per, time, cfg),
            Err::<(), TournamentManagerError>(TournamentManagerError::TooManyPenalties(limit)),
        ),
    decreases list.len(),
{
    lemma_served_count_bound(list, per, time, cfg);
    if list.len() > limit {
        lemma_first_complete_known(list, per, time, cfg);
        lemma_first_complete_in_range(list, 0, per, time, cfg);
        match first_complete(list, 0, per, time, cfg) {
            Some(Some(i)) => {
                let l2 = list.remove(i);
                assert forall|j: int| 0 <= j < l2.len() implies (#[trigger] l2[j].complete(
                    per,
                    time,
                    cfg,
                )) is Some by {
                    if j < i {
                        assert(l2[j] == list[j]);
                    } else {
                        assert(l2[j] == list[j + 1]);
                    }
                }
                lemma_limited_removes_first_served(l2, limit, per, time, cfg);
                lemma_remove_first_served(list, i, 0, per, time, cfg);
                lemma_without_none_served(l2, per, time, cfg);
                if l2.len() > limit && l2.len() - served_count(l2, per, time, cfg) <= limit {
                    lemma_remove_first_served(list, i, (l2.len() - limit) as nat, per, time, cfg);
                }
                if l2.len() - served_count(l2, per, time, cfg) > limit {
                    lemma_remove_first_served(
                        list,
                        i,
                        served_count(l2, per, time, cfg),
                        per,
                        time,
                        cfg,
                    );
                }
            },
            _ => {
                lemma_without_none_served(list, per, time, cfg);
            },
        }
    }
}

proof fn lemma_served_count_bound(list: Seq<Penalty>, per: GamePeriod, time: u64, cfg: GameConfig)
    ensures
        served_count(list, per, time, cfg) <= list.len(),
    decreases list.len(),
{
    if list.len() > 0 {
        lemma_served_count_bound(list.drop_first(), per, time, cfg);
    }
}

/// The period of play that follows a break: the first half after the break
/// between games, the second half after half time, each overtime half after
/// its break, and sudden death after the break before it.
pub open spec fn play_after(p: GamePeriod) -> GamePeriod {
    match p {
        GamePeriod::BetweenGames => GamePeriod::FirstHalf,
        GamePeriod::HalfTime => GamePeriod::SecondHalf,
        GamePeriod::PreOvertime => GamePeriod::OvertimeFirstHalf,
        GamePeriod::OvertimeHalfTime => GamePeriod::OvertimeSecondHalf,
        _ => GamePeriod::SuddenDeath,
    }
}

/// Starting play now, when it succeeds, begins the period of play after the
/// current break, with no timeout in progress and the game clock running
/// from `now`: showing the period's full length, or zero (counting up) in
/// sudden death. Scores carry over except when a new game starts.
pub proof fn lemma_start_play_now_begins_play(s: TournamentState, now: u64)
    requires
        s.start_play_now(now).1 is Ok,
    ensures
        !s.current_period.is_play(),
        s.start_play_now(now).0.current_period == play_after(s.current_period),
        s.start_play_now(now).0.timeout_state is NoTimeout,
        s.start_play_now(now).0.clock_state.running(),
        s.start_play_now(now).0.game_time(now) == Some(
            if play_after(s.current_period) == GamePeriod::SuddenDeath {
                0
            } else {
                s.start_play_now(now).0.config.duration_of(play_after(s.current_period))->0
            },
        ),
        s.current_period != GamePeriod::BetweenGames ==> s.start_play_now(now).0.b_score
            == s.b_score && s.start_play_now(now).0.w_score == s.w_score,
{
}

/// Starting play now is refused, and changes nothing, while a timeout is in
/// progress (the refusal shows the timeout as the display does) or a period
/// of play is already under way.
pub proof fn lemma_start_play_now_refusals(s: TournamentState, now: u64)
    ensures
        !(s.timeout_state is NoTimeout) ==> s.start_play_now(now) == (s, Err::<
            (),
            TournamentManagerError,
        >(TournamentManagerError::AlreadyInTimeout(s.timeout_state.snapshot(now)))),
        s.timeout_state is NoTimeout && s.current_period.is_play() ==> s.start_play_now(now) == (
            s,
            Err::<(), TournamentManagerError>(TournamentManagerError::AlreadyInPlayPeriod),
        ),
{
}

/// Which penalties limiting a team's list removes, when the game clock has
/// a reading and every penalty's served state is known there: a list within
/// the limit stays; otherwise, when enough are served, the first served ones
/// are removed (as many as the list is over the limit) and the rest stay in
/// order; otherwise the request is refused as too many penalties and every
/// served penalty is removed. The other team's list is untouched, and
/// without a clock reading the request is refused as an invalid instant.
pub proof fn lemma_limit_pen_list_len_law(s: TournamentState, color: Color, limit: usize, now: u64)
    ensures
        s.game_time(now) is None ==> s.limit_pen_list_len(color, limit, now) == (s, Err::<
            (),
            TournamentManagerError,
        >(TournamentManagerError::InvalidNowValue)),
        s.limit_pen_list_len(color, limit, now).0.penalties(other_color(color)) == s.penalties(
            other_color(color),
        ),
        s.game_time(now) matches Some(t) ==> {
            let l = s.penalties(color);
            let (s2, r) = s.limit_pen_list_len(color, limit, now);
            let c = served_count(l, s.current_period, t, s.config);
            states_known(l, s.current_period, t, s.config) ==> {
                &&& l.len() <= limit ==> s2.penalties(color) == l && r is Ok
                &&& l.len() > limit && l.len() - c <= limit ==> s2.penalties(color)
                    == without_first_served(
                    l,
                    (l.len() - limit) as nat,
                    s.current_period,
                    t,
                    s.config,
                ) && r is Ok
                &&& l.len() - c > limit ==> s2.penalties(color) == without_first_served(
                    l,
                    c,
                    s.current_period,
                    t,
                    s.config,
                ) && r == Err::<(), TournamentManagerError>(
                    TournamentManagerError::TooManyPenalties(limit),
                )
            }
        },
{
    lemma_limit_touches_one_list(s, color, limit, now);
    if let Some(t) = s.game_time(now) {
        let l = s.penalties(color);
        if states_known(l, s.current_period, t, s.config) {
            lemma_limited_removes_first_served(l, limit, s.current_period, t, s.config);
        }
    }
}

/// A goal adds one to the scoring team's score and nothing to the other's,
/// and is recorded as that team's goal by that player, at the period and
/// game-clock reading of the goal (no goal is recorded when the clock has no
/// reading). Outside sudden death the period and clocks stay as they were,
/// so a scoreboard drawn at the same instant still announces the goal.
pub proof fn lemma_goal_scores_and_names_its_scorer(
    s: TournamentState,
    color: Color,
    player: u8,
    now: u64,
    wall: int,
)
    requires
        color == Color::Black ==> s.b_score < 255,
        color == Color::White ==> s.w_score < 255,
    ensures
        color == Color::Black ==> s.add_score(color, player, now, wall).b_score == s.b_score + 1
            && s.add_score(color, player, now, wall).w_score == s.w_score,
        color == Color::White ==> s.add_score(color, player, now, wall).w_score == s.w_score + 1
            && s.add_score(color, player, now, wall).b_score == s.b_score,
        s.game_time(now) matches Some(t) ==> s.add_score(color, player, now, wall).recent_goal
            == Some((color, player, s.current_period, t)),
        s.game_time(now) is None ==> s.add_score(color, player, now, wall).recent_goal is None,
        s.add_score(color, player, now, wall).b_penalties == s.b_penalties,
        s.add_score(color, player, now, wall).w_penalties == s.w_penalties,
        s.current_period != GamePeriod::SuddenDeath ==> {
            let r = s.add_score(color, player, now, wall);
            &&& r.current_period == s.current_period
            &&& r.clock_state == s.clock_state
            &&& r.timeout_state == s.timeout_state
            &&& (s.game_time(now) matches Some(t) ==> r.game_time(now) == Some(t)
                && r.goal_still_recent(t))
        },
{
}

/// Setting the scores records exactly those scores; outside sudden death, or
/// when the scores are level, nothing else changes.
pub proof fn lemma_set_scores_records_them(s: TournamentState, b: u8, w: u8, now: u64, wall: int)
    ensures
        s.set_scores(b, w, now, wall).b_score == b,
        s.set_scores(b, w, now, wall).w_score == w,
        s.current_period != GamePeriod::SuddenDeath || b == w ==> s.set_scores(b, w, now, wall)
            == (TournamentState { b_score: b, w_score: w, ..s }),
{
}

/// Migrating old game timing keeps every value the old table holds with the
/// expected type: each duration in whole seconds that is not negative and
/// fits in nanoseconds, the timeouts per half when they fit, and the two
/// switches; each absent or unusable value takes the standard one.
pub proof fn lemma_game_migration_keeps_each_value(old: OldGame)
    ensures
        GameConfig::migrated(old).team_timeouts_per_half == match old.team_timeouts_per_half {
            Some(n) => if 0 <= n <= 65535 {
                n as u16
            } else {
                1
            },
            None => 1,
        },
        GameConfig::migrated(old).team_timeout_duration == match old.team_timeout_duration {
            Some(n) => if 0 <= n && n * 1_000_000_000 <= u64::MAX {
                (n * 1_000_000_000) as u64
            } else {
                60_000_000_000
            },
            None => 60_000_000_000,
        },
        GameConfig::migrated(old).half_play_duration == match old.half_play_duration {
            Some(n) => if 0 <= n && n * 1_000_000_000 <= u64::MAX {
                (n * 1_000_000_000) as u64
            } else {
                900_000_000_000
            },
            None => 900_000_000_000,
        },
        GameConfig::migrated(old).half_time_duration == match old.half_time_duration {
            Some(n) => if 0 <= n && n * 1_000_000_000 <= u64::MAX {
                (n * 1_000_000_000) as u64
            } else {
                180_000_000_000
            },
            None => 180_000_000_000,
        },
        GameConfig::migrated(old).pre_overtime_break == match old.pre_overtime_break {
            Some(n) => if 0 <= n && n * 1_000_000_000 <= u64::MAX {
                (n * 1_000_000_000) as u64
            } else {
                180_000_000_000
            },
            None => 180_000_000_000,
        },
        GameConfig::migrated(old).ot_half_play_duration == match old.ot_half_play_duration {
            Some(n) => if 0 <= n && n * 1_000_000_000 <= u64::MAX {
                (n * 1_000_000_000) as u64
            } else {
                300_000_000_000
            },
            None => 300_000_000_000,
        },
        GameConfig::migrated(old).ot_half_time_duration == match old.ot_half_time_duration {
            Some(n) => if 0 <= n && n * 1_000_000_000 <= u64::MAX {
                (n * 1_000_000_000) as u64
            } else {
                180_000_000_000
            },
            None => 180_000_000_000,
        },
        GameConfig::migrated(old).pre_sudden_death_duration == match old.pre_sudden_death_duration {
            Some(n) => if 0 <= n && n * 1_000_000_000 <= u64::MAX {
                (n * 1_000_000_000) as u64
            } else {
                60_000_000_000
            },
            None => 60_000_000_000,
        },
        GameConfig::migrated(old).nominal_break == match old.nominal_break {
            Some(n) => if 0 <= n && n * 1_000_000_000 <= u64::MAX {
                (n * 1_000_000_000) as u64
            } else {
                900_000_000_000
            },
            None => 900_000_000_000,
        },
        GameConfig::migrated(old).minimum_break == match old.minimum_break {
            Some(n) => if 0 <= n && n * 1_000_000_000 <= u64::MAX {
                (n * 1_000_000_000) as u64
            } else {
                240_000_000_000
            },
            None => 240_000_000_000,
        },
        GameConfig::migrated(old).post_game_duration == match old.post_game_duration {
            Some(n) => if 0 <= n && n * 1_000_000_000 <= u64::MAX {
                (n * 1_000_000_000) as u64
            } else {
                120_000_000_000
            },
            None => 120_000_000_000,
        },
        GameConfig::migrated(old).overtime_allowed == match old.overtime_allowed {
            Some(b) => b,
            None => true,
        },
        GameConfig::migrated(old).sudden_death_allowed == match old.sudden_death_allowed {
            Some(b) => b,
            None => true,
        },
{
}

/// The length of a penalty kind in whole seconds: one, two or five minutes;
/// none for a total dismissal.
pub open spec fn penalty_secs(k: PenaltyKind) -> Option<int> {
    match k {
        PenaltyKind::OneMinute => Some(60),
        PenaltyKind::TwoMinute => Some(120),
        PenaltyKind::FiveMinute => Some(300),
        PenaltyKind::TotalDismissal => None,
    }
}

/// Within the period a penalty started in, while that period runs
/// penalties, the scoreboard shows the penalised player's number and the
/// whole seconds left: the penalty's length less the game time that has
/// passed since it started (the clock counts down, in sudden death up), and
/// never less than zero; a total dismissal shows as such.
pub proof fn lemma_penalty_shows_its_time_left(pen: Penalty, t: u64, cfg: GameConfig)
    requires
        cfg.runs_penalties(pen.start_period),
        pen.start_period != GamePeriod::BetweenGames,
        pen.start_period == GamePeriod::SuddenDeath ==> t >= pen.start_time,
        pen.start_period != GamePeriod::SuddenDeath ==> t <= pen.start_time,
    ensures
        pen.snapshot(pen.start_period, t, cfg) matches Some(snap) && snap.player_number
            == pen.player_number && match penalty_secs(pen.kind) {
            None => snap.time == PenaltyTime::TotalDismissal,
            Some(len) => {
                let passed: int = if pen.start_period == GamePeriod::SuddenDeath {
                    t - pen.start_time
                } else {
                    pen.start_time - t
                };
                let left: int = if len * 1_000_000_000 >= passed {
                    len * 1_000_000_000 - passed
                } else {
                    0
                };
                snap.time == PenaltyTime::Seconds((left / 1_000_000_000) as u16)
            },
        },
{
}

/// A team timeout, once started, is that team's: its clock shows the full
/// team-timeout length, the game clock stands still at the reading it had,
/// the team has used one more timeout and the other team none more, and the
/// scores are untouched.
pub proof fn lemma_team_timeout_starts_full(s: TournamentState, color: Color, now: u64)
    requires
        s.start_team_timeout(color, now).1 is Ok,
        s.timeout_state is NoTimeout,
    ensures
        ({
            let r = s.start_team_timeout(color, now).0;
            &&& color == Color::Black ==> r.timeout_state is Black && r.b_timeouts_used
                == s.b_timeouts_used + 1 && r.w_timeouts_used == s.w_timeouts_used
            &&& color == Color::White ==> r.timeout_state is White && r.w_timeouts_used
                == s.w_timeouts_used + 1 && r.b_timeouts_used == s.b_timeouts_used
            &&& r.timeout_time(now) == Some(s.config.team_timeout_duration)
            &&& !r.clock_state.running()
            &&& r.game_time(now) == s.game_time(now)
            &&& r.b_score == s.b_score && r.w_score == s.w_score
        }),
{
}

/// A referee timeout or a penalty shot, once started, times up from zero,
/// with the game clock standing still at the reading it had.
pub proof fn lemma_ref_timeout_and_penalty_shot_count_up_from_zero(s: TournamentState, now: u64)
    requires
        s.timeout_state is NoTimeout,
    ensures
        s.start_ref_timeout(now).1 is Ok ==> s.start_ref_timeout(now).0.timeout_state is Ref
            && s.start_ref_timeout(now).0.timeout_time(now) == Some(0u64)
            && !s.start_ref_timeout(now).0.clock_state.running() && s.start_ref_timeout(
            now,
        ).0.game_time(now) == s.game_time(now),
        s.start_penalty_shot(now).1 is Ok ==> s.start_penalty_shot(now).0.timeout_state is PenaltyShot
            && s.start_penalty_shot(now).0.timeout_time(now) == Some(0u64)
            && !s.start_penalty_shot(now).0.clock_state.running() && s.start_penalty_shot(
            now,
        ).0.game_time(now) == s.game_time(now),
{
}

/// Ending a timeout is refused without one; otherwise no timeout remains,
/// the game clock shows what it showed, and it runs again exactly when the
/// timeout clock was running (the game clock standing still during the
/// timeout).
pub proof fn lemma_end_timeout_resumes_play(s: TournamentState, now: u64)
    requires
        !s.clock_state.running(),
    ensures
        s.timeout_state is NoTimeout ==> s.end_timeout(now) == (s, Err::<
            (),
            TournamentManagerError,
        >(TournamentManagerError::NotInTimeout)),
        !(s.timeout_state is NoTimeout) ==> {
            let r = s.end_timeout(now).0;
            &&& s.end_timeout(now).1 is Ok
            &&& r.timeout_state is NoTimeout
            &&& r.game_time(now) == s.game_time(now)
            &&& r.clock_state.running() == s.timeout_state.clock().unwrap().running()
            &&& r.current_period == s.current_period
        },
{
}

/// The period that follows `p` when its clock runs out, given whether the
/// scores are level and which extra periods the rules allow: half time after
/// the first half, the second half after it; after the second half the game
/// ends unless the scores are level and overtime (else sudden death) is
/// allowed; overtime's halves and breaks follow in turn; after overtime's
/// second half the game ends unless the scores are level and sudden death is
/// allowed; sudden death follows its break.
pub open spec fn period_after(p: GamePeriod, tied: bool, ot: bool, sd: bool) -> GamePeriod {
    match p {
        GamePeriod::FirstHalf => GamePeriod::HalfTime,
        GamePeriod::HalfTime => GamePeriod::SecondHalf,
        GamePeriod::SecondHalf => if tied && ot {
            GamePeriod::PreOvertime
        } else if tied && sd {
            GamePeriod::PreSuddenDeath
        } else {
            GamePeriod::BetweenGames
        },
        GamePeriod::PreOvertime => GamePeriod::OvertimeFirstHalf,
        GamePeriod::OvertimeFirstHalf => GamePeriod::OvertimeHalfTime,
        GamePeriod::OvertimeHalfTime => GamePeriod::OvertimeSecondHalf,
        GamePeriod::OvertimeSecondHalf => if tied && sd {
            GamePeriod::PreSuddenDeath
        } else {
            GamePeriod::BetweenGames
        },
        GamePeriod::PreSuddenDeath => GamePeriod::SuddenDeath,
        _ => p,
    }
}

/// When the clock of a period within a game runs out, `update` moves to the
/// period that follows it, and that period's clock starts from the instant
/// the last one ran out, showing the period's full length (counting up from
/// zero in sudden death).
pub proof fn lemma_expired_period_gives_the_next(s: TournamentState, now: u64, wall: int)
    requires
        s.clock_state matches ClockState::CountingDown { start_time, time_remaining_at_start }
            && now >= start_time && now - start_time >= time_remaining_at_start,
        s.current_period != GamePeriod::BetweenGames,
        s.current_period != GamePeriod::SuddenDeath,
    ensures
        ({
            let r = s.update(now, wall).0;
            let next = period_after(
                s.current_period,
                s.b_score == s.w_score,
                s.config.overtime_allowed,
                s.config.sudden_death_allowed,
            );
            let t0 = match s.clock_state {
                ClockState::CountingDown { start_time, time_remaining_at_start } => sat(
                    start_time + time_remaining_at_start,
                ),
                _ => 0,
            };
            &&& r.current_period == next
            &&& next == GamePeriod::SuddenDeath ==> r.clock_state == (ClockState::CountingUp {
                start_time: t0,
                time_at_start: 0,
            })
            &&& next != GamePeriod::SuddenDeath && next != GamePeriod::BetweenGames
                ==> r.clock_state == (ClockState::CountingDown {
                start_time: t0,
                time_remaining_at_start: s.config.duration_of(next).unwrap(),
            })
        }),
{
}

/// The other team.
pub open spec fn other_color(c: Color) -> Color {
    match c {
        Color::Black => Color::White,
        Color::White => Color::Black,
    }
}

/// Limiting one team's penalty list leaves the other team's list, and
/// everything else, as it was; without a game-clock reading it is refused
/// as an invalid instant and changes nothing.
pub proof fn lemma_limit_touches_one_list(s: TournamentState, color: Color, limit: usize, now: u64)
    ensures
        s.game_time(now) is None ==> s.limit_pen_list_len(color, limit, now) == (s, Err::<
            (),
            TournamentManagerError,
        >(TournamentManagerError::InvalidNowValue)),
        s.game_time(now) matches Some(t) ==> s.limit_pen_list_len(color, limit, now).0
            == s.with_penalties(
            color,
            limited(s.penalties(color), limit, s.current_period, t, s.config).0,
        ),
        s.limit_pen_list_len(color, limit, now).0.penalties(other_color(color)) == s.penalties(
            other_color(color),
        ),
{
}

/// When limiting a penalty list succeeds, at most `limit` penalties remain;
/// in any case the list never grows.
pub proof fn lemma_limited_fits(
    list: Seq<Penalty>,
    limit: usize,
    per: GamePeriod,
    time: u64,
    cfg: GameConfig,
)
    ensures
        limited(list, limit, per, time, cfg).1 is Ok ==> limited(list, limit, per, time, cfg).0.len()
            <= limit,
        limited(list, limit, per, time, cfg).0.len() <= list.len(),
    decreases list.len(),
{
    if list.len() > limit {
        lemma_first_complete_in_range(list, 0, per, time, cfg);
        match first_complete(list, 0, per, time, cfg) {
            Some(Some(i)) => {
                if 0 <= i < list.len() {
                    lemma_limited_fits(list.remove(i), limit, per, time, cfg);
                }
            },
            _ => {},
        }
    }
}

} // verus!

verus! {

impl TournamentManager {
    /// Whether the scores and penalties have been cleared since the last
    /// game.
    pub fn has_reset(&self) -> (r: bool)
        ensures
            r == self@.has_reset,
    {
        self.has_reset
    }

    /// The timeout in progress, with its clock.
    pub fn timeout_state(&self) -> (r: TimeoutState)
        ensures
            r == self@.timeout_state,
    {
        self.timeout_state
    }

    /// The game clock.
    pub fn clock_state(&self) -> (r: ClockState)
        ensures
            r == self@.clock_state,
    {
        self.clock_state
    }

    /// When the next game is scheduled to start, on the monotonic clock.
    pub fn next_scheduled_start(&self) -> (r: Option<u64>)
        ensures
            r == self@.next_scheduled_start,
    {
        self.next_scheduled_start
    }

    /// The game-clock reading between games at or below which the last
    /// game's scores and penalties are cleared.
    pub fn reset_game_time(&self) -> (r: u64)
        ensures
            r == self@.reset_game_time,
    {
        self.reset_game_time
    }

    /// Sets the period and the stopped game clock (for setting up a game by
    /// hand); the clock must be stopped.
    pub fn set_period_and_game_clock_time(&mut self, period: GamePeriod, clock_time: u64)
        requires
            old(self)@.wf(),
            old(self)@.clock_state is Stopped,
        ensures
            final(self)@.wf(),
            final(self)@ == (TournamentState {
                current_period: period,
                clock_state: ClockState::Stopped { clock_time },
                ..old(self)@
            }),
    {
        self.current_period = period;
        self.clock_state = ClockState::Stopped { clock_time };
    }

    /// Schedules the next game as if this one had started at `time`; the
    /// clock must be stopped.
    pub fn set_game_start(&mut self, time: u64)
        requires
            old(self)@.wf(),
            old(self)@.clock_state is Stopped,
        ensures
            final(self)@.wf(),
            final(self)@ == (TournamentState {
                next_scheduled_start: Some(
                    sat(time + 2 * old(self)@.config.half_play_duration
                        + old(self)@.config.half_time_duration + old(
                        self,
                    )@.config.nominal_break),
                ),
                ..old(self)@
            }),
    {
        let game = sat_add(self.config.half_play_duration, self.config.half_play_duration);
        let total = sat_add(sat_add(sat_add(time, game), self.config.half_time_duration), self.config.nominal_break);
        self.next_scheduled_start = Some(total);
    }

    /// Sets the timeout state (for setting up a game by hand); the game
    /// clock must be stopped.
    pub fn set_timeout_state(&mut self, state: TimeoutState)
        requires
            old(self)@.wf(),
            old(self)@.clock_state is Stopped,
            timeout_clock_ok(state),
        ensures
            final(self)@.wf(),
            final(self)@ == (TournamentState { timeout_state: state, ..old(self)@ }),
    {
        self.timeout_state = state;
    }
}

} // verus!

verus! {

impl TournamentManager {
    /// Whether the number of the next game fits a `u32`.
    pub fn next_number_fits(&self) -> (r: bool)
        ensures
            r == (self@.next_number() <= u32::MAX),
    {
        if self.current_period == GamePeriod::BetweenGames {
            match self.next_game {
                Some(_) => {
                    return true;
                },
                None => {},
            }
        }
        self.game_number < u32::MAX
    }

    /// Whether the timeout clock, if a timeout is in progress, can be shown
    /// at `now`.
    pub fn timeout_display_fits(&self, now: u64) -> (r: bool)
        ensures
            r == self@.timeout_state.display_fits(now),
    {
        let cs = match self.timeout_state {
            TimeoutState::NoTimeout => {
                return true;
            },
            TimeoutState::Black(cs) => cs,
            TimeoutState::White(cs) => cs,
            TimeoutState::Ref(cs) => cs,
            TimeoutState::PenaltyShot(cs) => cs,
        };
        match cs.clock_time(now) {
            Some(t) => t / 1_000_000_000 <= 65535,
            None => true,
        }
    }

    /// Whether `update` at `now` has a defined outcome.
    pub fn update_is_defined(&self, now: u64) -> (r: bool)
        ensures
            r == self@.update_defined(now),
    {
        match self.clock_state {
            ClockState::CountingDown { start_time, time_remaining_at_start } => {
                if now >= start_time && now - start_time >= time_remaining_at_start
                    && self.current_period == GamePeriod::BetweenGames {
                    self.next_number_fits()
                } else {
                    true
                }
            },
            ClockState::CountingUp { .. } => {
                let cs = match self.timeout_state {
                    TimeoutState::Black(cs) => Some(cs),
                    TimeoutState::White(cs) => Some(cs),
                    _ => None,
                };
                match cs {
                    Some(ClockState::CountingDown { start_time, time_remaining_at_start }) => {
                        now.saturating_sub(start_time) < time_remaining_at_start
                    },
                    _ => true,
                }
            },
            ClockState::Stopped { .. } => true,
        }
    }
}

} // verus!

verus! {

/// Within the period a penalty started in, its time only runs down: a later
/// reading of a counting-down clock (a smaller one) never leaves more time to
/// serve than an earlier one, and likewise for the counting-up clock of
/// sudden death.
pub proof fn lemma_penalty_runs_down(
    pen: Penalty,
    t1: u64,
    t2: u64,
    cfg: GameConfig,
)
    requires
        pen.start_period != GamePeriod::BetweenGames,
        pen.start_period == GamePeriod::SuddenDeath ==> pen.start_time <= t1 <= t2,
        pen.start_period != GamePeriod::SuddenDeath ==> t2 <= t1 <= pen.start_time,
        pen.kind != PenaltyKind::TotalDismissal,
    ensures
        pen.remaining(pen.start_period, t1, cfg) is Some,
        pen.remaining(pen.start_period, t2, cfg) is Some,
        pen.remaining(pen.start_period, t2, cfg).unwrap() <= pen.remaining(
            pen.start_period,
            t1,
            cfg,
        ).unwrap(),
{
}

} // verus!

verus! {

/// Starting the stopped clock and stopping it again at the same instant
/// leaves everything as it was, but for the start/stop signal, which ends
/// on "stopped".
pub proof fn lemma_start_then_stop_restores(s: TournamentState, now: u64)
    requires
        s.wf(),
        !s.running(),
    ensures
        s.start_clock(now).stop_clock(now).1 is Ok,
        s.start_clock(now).stop_clock(now).0 == (TournamentState {
            clock_running_signal: false,
            ..s
        }),
{
}

} // verus!
