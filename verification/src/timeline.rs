//! The mathematical model of a stopwatch: an affine map from clock readings
//! to virtual time, with a pause point.
//!
//! Clock readings and virtual times are whole ticks. The speed is the
//! fraction `num / den` of virtual ticks per clock tick. The virtual time at
//! a clock reading `t` is `floor((t * num - origin) / den)`, where `t` is
//! replaced by the pause point while the stopwatch is paused. Keeping the
//! origin scaled by `num` makes every operation exact in integers, and gives
//! a speed of zero a meaning: such a stopwatch always reads the time it was
//! last set to.

use vstd::prelude::*;
use crate::arith::clamp;

verus! {

/// The largest magnitude of a timeline's origin: 2^97. Operations that would
/// move the origin past it leave it at the limit. The limit is wide enough
/// for every timeline whose time is within the range of `i64` at some clock
/// reading.
pub const ORIGIN_LIMIT: i128 = 0x2_0000_0000_0000_0000_0000_0000;

/// The state of a stopwatch as mathematical integers.
pub struct Timeline {
    /// The clock reading at which virtual time is zero, multiplied by `num`.
    pub origin: int,
    /// The clock reading at which the stopwatch was paused, if it is paused.
    pub paused_at: Option<int>,
    /// Numerator of the speed.
    pub num: int,
    /// Denominator of the speed.
    pub den: int,
}

impl Timeline {
    /// The values that a stopwatch can hold.
    pub open spec fn wf(self) -> bool {
        &&& 0 <= self.num <= u32::MAX
        &&& 0 < self.den <= u32::MAX
        &&& Self::within_limit(self.origin)
        &&& (self.paused_at matches Some(p) ==> 0 <= p <= u64::MAX)
    }

    /// A running timeline that reads zero at the clock reading `now`.
    pub open spec fn fresh(num: int, den: int, now: int) -> Timeline {
        Timeline { origin: now * num, paused_at: None, num, den }
    }

    pub open spec fn paused(self) -> bool {
        self.paused_at is Some
    }

    /// The clock reading that counts at `now`: the pause point while paused,
    /// else `now` itself.
    pub open spec fn end_time(self, now: int) -> int {
        match self.paused_at {
            Some(p) => p,
            None => now,
        }
    }

    /// Virtual time at `now` in units of `1 / den` ticks.
    pub open spec fn scaled_time(self, now: int) -> int {
        self.end_time(now) * self.num - self.origin
    }

    /// Virtual time at `now` in whole ticks, rounded down.
    pub open spec fn exact_time(self, now: int) -> int {
        self.scaled_time(now) / self.den
    }

    /// Virtual time at `now` as a stopwatch reports it: `exact_time`, kept
    /// within the range of `i64`.
    pub open spec fn time(self, now: int) -> int {
        clamp(self.exact_time(now), i64::MIN as int, i64::MAX as int)
    }

    /// Whether `origin` is within the limit.
    pub open spec fn within_limit(origin: int) -> bool {
        -ORIGIN_LIMIT <= origin <= ORIGIN_LIMIT
    }

    /// Whether unpausing at `now` leaves the origin within its limit, so
    /// that the time at `now` is the frozen time.
    pub open spec fn unpause_fits(self, now: int) -> bool {
        self.paused() ==> Self::within_limit(now * self.num - self.scaled_time(now))
    }

    /// Whether adding `time_diff` leaves the origin within its limit, so
    /// that every reading grows by `time_diff`.
    pub open spec fn add_time_fits(self, time_diff: int) -> bool {
        Self::within_limit(self.origin - time_diff * self.den)
    }

    /// Pausing at `now` freezes the clock reading that counts. A paused
    /// timeline stays as it is.
    pub open spec fn pause(self, now: int) -> Timeline {
        Timeline { paused_at: Some(self.end_time(now)), ..self }
    }

    /// Unpausing at `now` moves the origin by the length of the pause, so
    /// that the time at `now` is the frozen time; an origin past the limit
    /// stops at the limit. A running timeline stays as it is.
    pub open spec fn unpause(self, now: int) -> Timeline {
        match self.paused_at {
            Some(p) => Timeline {
                origin: clamp(
                    now * self.num - self.scaled_time(now),
                    -ORIGIN_LIMIT as int,
                    ORIGIN_LIMIT as int,
                ),
                paused_at: None,
                ..self
            },
            None => self,
        }
    }

    pub open spec fn toggle_pause(self, now: int) -> Timeline {
        if self.paused() {
            self.unpause(now)
        } else {
            self.pause(now)
        }
    }

    /// Moves the origin so that the time at `now` is `cur_time`. The pause
    /// point stays.
    pub open spec fn set_time(self, cur_time: int, now: int) -> Timeline {
        Timeline { origin: self.end_time(now) * self.num - cur_time * self.den, ..self }
    }

    /// Moves the origin back by `time_diff` virtual ticks, so that every
    /// reading grows by `time_diff`; an origin past the limit stops at the
    /// limit. The pause point stays.
    pub open spec fn add_time(self, time_diff: int) -> Timeline {
        Timeline {
            origin: clamp(
                self.origin - time_diff * self.den,
                -ORIGIN_LIMIT as int,
                ORIGIN_LIMIT as int,
            ),
            ..self
        }
    }
}

} // verus!
