//! The host's handle to one running engine instance.
//!
//! A successful open yields a handle whose tick interval defaults to
//! 1/120 second. Each step hands the engine's outcome for one update
//! cycle to the handle: a freshly computed tick interval on success,
//! nothing on failure. Success replaces the stored interval and reports
//! true; failure keeps the previous interval untouched and reports
//! false — the sole error signal that crosses the boundary.

use vstd::prelude::*;
use crate::time_convert::MAX_MICROS_SECS;
use crate::time_convert::TickInterval;

verus! {

/// The state this layer owns beside the engine instance: the
/// last-observed tick interval, which paces the host's stepping loop.
pub struct Runtime {
    tick_interval: TickInterval,
}

impl Runtime {
    /// The tick interval the handle currently reports.
    pub closed spec fn interval(self) -> TickInterval {
        self.tick_interval
    }

    /// The stored interval is well formed and its microsecond reading
    /// fits the host's unsigned 64-bit integer.
    pub open spec fn wf(self) -> bool {
        self.interval().wf() && self.interval().secs <= MAX_MICROS_SECS
    }

    /// A fresh handle, as a successful open returns it: the tick
    /// interval defaults to 1/120 second, truncated to nanoseconds,
    /// until the first successful step replaces it.
    pub fn new() -> (r: Runtime)
        ensures
            r.wf(),
            r.interval().total_nanos() == 1_000_000_000int / 120,
    {
        Runtime { tick_interval: TickInterval::default_interval() }
    }

    /// The outcome of an open: a fresh handle when the script was read
    /// and the engine was constructed, nothing otherwise. A failed open
    /// constructs nothing at all.
    pub fn open(constructed: bool) -> (r: Option<Runtime>)
        ensures
            r.is_some() == constructed,
            (match r {
                Some(handle) => handle.wf() && handle.interval().total_nanos() == 1_000_000_000int
                    / 120,
                None => true,
            }),
    {
        if constructed {
            Some(Runtime::new())
        } else {
            None
        }
    }

    /// One step, given the engine's outcome for this update cycle. On
    /// success the stored interval becomes the engine's fresh value and
    /// the step reports true; on failure every part of the previous
    /// state is kept and the step reports false.
    pub fn apply_step(&mut self, outcome: Option<TickInterval>) -> (ok: bool)
        requires
            old(self).wf(),
            (match outcome {
                Some(t) => t.wf() && t.secs <= MAX_MICROS_SECS,
                None => true,
            }),
        ensures
            final(self).wf(),
            ok == outcome.is_some(),
            (match outcome {
                Some(t) => final(self).interval() == t,
                None => final(self).interval() == old(self).interval(),
            }),
    {
        match outcome {
            Some(t) => {
                self.tick_interval = t;
                true
            },
            None => false,
        }
    }

    /// The stored tick interval in whole microseconds, truncating.
    pub fn tick_rate_micros(&self) -> (r: u64)
        requires
            self.wf(),
        ensures
            r == self.interval().total_nanos() / 1000,
    {
        self.tick_interval.to_micros()
    }

    /// Destroys the handle. The compiler rejects any further use of a
    /// released handle, so a handle is released at most once.
    pub fn release(self) {
    }
}

} // verus!
