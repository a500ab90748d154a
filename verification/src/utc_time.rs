//! Wall-clock instants as whole nanoseconds since the Unix epoch.

use vstd::prelude::*;

verus! {

pub const NANOS_PER_SEC: i128 = 1_000_000_000;

/// The range of a `UtcTime`, in nanoseconds: every instant whose whole-second
/// part fits in an `i64`.
pub const MIN_UTC_NANOS: i128 = -9_223_372_036_854_775_808_000_000_000;

pub const MAX_UTC_NANOS: i128 = 9_223_372_036_854_775_807_999_999_999;

/// A wall-clock instant, in nanoseconds since 1970-01-01T00:00:00Z.
#[derive(Clone, Copy, Debug, PartialEq, Eq)]
pub struct UtcTime {
    nanos: i128,
}

impl View for UtcTime {
    type V = int;

    closed spec fn view(&self) -> int {
        self.nanos as int
    }
}

pub open spec fn in_utc_range(n: int) -> bool {
    MIN_UTC_NANOS <= n <= MAX_UTC_NANOS
}

impl UtcTime {
    #[verifier::type_invariant]
    spec fn inv(self) -> bool {
        in_utc_range(self.nanos as int)
    }

    /// The instant `n` nanoseconds after the epoch, if it is in range.
    pub fn from_unix_nanos(n: i128) -> (r: Option<UtcTime>)
        ensures
            r is Some <==> in_utc_range(n as int),
            r matches Some(t) ==> t@ == n,
    {
        if MIN_UTC_NANOS <= n && n <= MAX_UTC_NANOS {
            Some(UtcTime { nanos: n })
        } else {
            None
        }
    }

    /// The instant `s` whole seconds after the epoch.
    pub fn from_unix_secs(s: i64) -> (r: UtcTime)
        ensures
            r@ == s as int * NANOS_PER_SEC,
    {
        let s128: i128 = s as i128;
        assert(MIN_UTC_NANOS <= s128 * NANOS_PER_SEC <= MAX_UTC_NANOS) by (nonlinear_arith)
            requires
                -9_223_372_036_854_775_808 <= s128 <= 9_223_372_036_854_775_807,
        ;
        let n: i128 = s128 * NANOS_PER_SEC;
        UtcTime { nanos: n }
    }

    /// Nanoseconds since the epoch.
    pub fn unix_nanos(&self) -> (r: i128)
        ensures
            r == self@,
            in_utc_range(r as int),
    {
        proof {
            use_type_invariant(self);
        }
        self.nanos
    }

    /// Nanoseconds from `earlier` to `self` (negative when `self` is the
    /// earlier of the two).
    pub fn nanos_since(&self, earlier: &UtcTime) -> (r: i128)
        ensures
            r == self@ - earlier@,
    {
        proof {
            use_type_invariant(self);
            use_type_invariant(earlier);
        }
        self.nanos - earlier.nanos
    }
}

} // verus!
