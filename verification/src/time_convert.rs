//! Fixed-point time-unit conversions.
//!
//! The engine reports durations as whole seconds plus a sub-second
//! nanosecond remainder. The host consumes two integer units: whole
//! microseconds for the pacing interval, and 100-nanosecond ticks for
//! game time. Both conversions truncate; the sub-unit remainder is an
//! accepted precision loss, never rounded.

use vstd::prelude::*;

verus! {

/// Largest seconds count for which the microsecond conversion fits in `u64`.
pub const MAX_MICROS_SECS: u64 = 18_446_744_073_708;

/// Largest seconds count for which the 100ns-tick conversion fits in `i64`.
pub const MAX_TICKS_SECS: i64 = 922_337_203_684;

/// A non-negative duration held as whole seconds and a sub-second
/// nanosecond remainder, as the engine reports its tick interval.
pub struct TickInterval {
    pub secs: u64,
    pub nanos: u32,
}

impl TickInterval {
    /// The nanosecond field is a sub-second remainder.
    pub open spec fn wf(self) -> bool {
        self.nanos < 1_000_000_000
    }

    /// Total length in nanoseconds.
    pub open spec fn total_nanos(self) -> int {
        self.secs * 1_000_000_000 + self.nanos
    }

    /// An interval from its two fields, as the engine hands them out.
    pub fn new(secs: u64, nanos: u32) -> (r: TickInterval)
        requires
            nanos < 1_000_000_000,
        ensures
            r.wf(),
            r.secs == secs,
            r.nanos == nanos,
    {
        TickInterval { secs, nanos }
    }

    /// The pacing interval a runtime starts with, before the first
    /// successful step: 1/120 of a second, truncated to nanoseconds.
    pub fn default_interval() -> (r: TickInterval)
        ensures
            r.wf(),
            r.total_nanos() == 1_000_000_000int / 120,
    {
        TickInterval { secs: 0, nanos: 8_333_333 }
    }

    /// Whole microseconds, truncating: nanosecond precision below one
    /// microsecond is discarded.
    pub fn to_micros(&self) -> (r: u64)
        requires
            self.wf(),
            self.secs <= MAX_MICROS_SECS,
        ensures
            r == self.total_nanos() / 1000,
    {
        proof {
            lemma_split_div(self.secs as int, self.nanos as int, 1_000_000_000, 1000);
        }
        self.secs * 1_000_000 + (self.nanos / 1000) as u64
    }
}

/// A non-negative game-time duration held as whole seconds and a
/// sub-second nanosecond remainder, in the engine's signed layout.
pub struct GameTime {
    pub secs: i64,
    pub nanos: i32,
}

impl GameTime {
    /// Non-negative, with the nanosecond field a sub-second remainder.
    pub open spec fn wf(self) -> bool {
        &&& 0 <= self.secs
        &&& 0 <= self.nanos < 1_000_000_000
    }

    /// Total length in nanoseconds.
    pub open spec fn total_nanos(self) -> int {
        self.secs * 1_000_000_000 + self.nanos
    }

    /// A game time from its two fields, as the engine hands them out.
    pub fn new(secs: i64, nanos: i32) -> (r: GameTime)
        requires
            0 <= secs,
            0 <= nanos < 1_000_000_000,
        ensures
            r.wf(),
            r.secs == secs,
            r.nanos == nanos,
    {
        GameTime { secs, nanos }
    }

    /// Whole 100-nanosecond ticks, truncating: precision below one tick
    /// is discarded.
    pub fn to_ticks(&self) -> (r: i64)
        requires
            self.wf(),
            self.secs <= MAX_TICKS_SECS,
        ensures
            r == self.total_nanos() / 100,
    {
        proof {
            lemma_split_div(self.secs as int, self.nanos as int, 1_000_000_000, 100);
        }
        self.secs * 10_000_000 + (self.nanos / 100) as i64
    }
}

/// Splitting a second count off a nanosecond total commutes with
/// truncating division by a unit that divides one second evenly:
/// `(s * nps + n) / u == s * (nps / u) + n / u`.
proof fn lemma_split_div(s: int, n: int, nps: int, u: int)
    requires
        0 <= s,
        0 <= n,
        0 < u,
        0 < nps,
        nps % u == 0,
    ensures
        (s * nps + n) / u == s * (nps / u) + n / u,
{
    let q = nps / u;
    assert(nps == u * q) by {
        vstd::arithmetic::div_mod::lemma_fundamental_div_mod(nps, u);
    }
    assert(s * nps == (s * q) * u) by (nonlinear_arith)
        requires nps == u * q;
    vstd::arithmetic::div_mod::lemma_hoist_over_denominator(n, s * q, u as nat);
}

} // verus!
