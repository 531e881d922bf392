//! A pausable, speed-scaled virtual clock, and a frame-rate reporter built
//! on it.
//!
//! The library reads no clock itself. Every operation that depends on the
//! present takes the reading of a clock that the caller keeps, as a whole
//! number of ticks, and time comes back in whole ticks too. A [`Stopwatch`]
//! is an affine map from clock readings to virtual time: pausing, setting
//! and shifting the time, and the speed all act on the origin of that map,
//! so there is no count of elapsed time to keep in step. Its model is
//! [`timeline::Timeline`], and [`laws`] holds what is proved of it.

use vstd::prelude::*;

pub mod arith;
pub mod fps_logger;
pub mod laws;
pub mod text;
pub mod timeline;

use crate::arith::{
    clamp_to_i64, clamp_to_limit, floor_div, lemma_product_bound, lemma_signed_product_bound,
};
use crate::laws::{law_fresh_reads_zero, law_set_time_round_trip};
use crate::timeline::{Timeline, ORIGIN_LIMIT};

verus! {

/// A speed: the fraction `num / den` of virtual ticks per clock tick, with
/// `den` above zero. A speed of zero freezes the stopwatch at the time it
/// was last set to.
#[derive(Clone, Copy, Debug, PartialEq, Eq)]
pub struct Speed {
    num: u32,
    den: u32,
}

impl Speed {
    #[verifier::type_invariant]
    closed spec fn inv(self) -> bool {
        self.den > 0
    }

    /// The numerator.
    pub closed spec fn num(self) -> int {
        self.num as int
    }

    /// The denominator.
    pub closed spec fn den(self) -> int {
        self.den as int
    }

    /// The speed `num / den`, or nothing where `den` is zero.
    pub fn new(num: u32, den: u32) -> (speed: Option<Speed>)
        ensures
            den == 0 <==> speed is None,
            speed matches Some(s) ==> s.num() == num && s.den() == den,
    {
        if den == 0 {
            None
        } else {
            Some(Speed { num, den })
        }
    }

    /// One virtual tick per clock tick.
    pub fn unit() -> (speed: Speed)
        ensures
            speed.num() == 1,
            speed.den() == 1,
    {
        Speed { num: 1, den: 1 }
    }

    pub fn numerator(&self) -> (n: u32)
        ensures
            n == self.num(),
    {
        self.num
    }

    pub fn denominator(&self) -> (d: u32)
        ensures
            d == self.den(),
            d > 0,
    {
        proof {
            use_type_invariant(self);
        }
        self.den
    }
}

/// A stopwatch over a clock that the caller reads: every operation that
/// depends on the present takes the clock reading `now`, in ticks.
#[derive(Clone, Copy, Debug, PartialEq, Eq)]
pub struct Stopwatch {
    origin: i128,
    paused_at: Option<u64>,
    speed: Speed,
}

impl View for Stopwatch {
    type V = Timeline;

    closed spec fn view(&self) -> Timeline {
        Timeline {
            origin: self.origin as int,
            paused_at: match self.paused_at {
                Some(p) => Some(p as int),
                None => None,
            },
            num: self.speed.num(),
            den: self.speed.den(),
        }
    }
}

impl Stopwatch {
    #[verifier::type_invariant]
    closed spec fn inv(self) -> bool {
        &&& self.speed.den > 0
        &&& -ORIGIN_LIMIT <= self.origin <= ORIGIN_LIMIT
    }

    /// Creates a stopwatch with unit speed that reads zero at `now`.
    pub fn new(now: u64) -> (sw: Stopwatch)
        ensures
            sw@ == Timeline::fresh(1, 1, now as int),
            sw@.time(now as int) == 0,
            sw@.wf(),
    {
        Self::with_speed(Speed::unit(), now)
    }

    /// Creates a stopwatch that reads zero at `now` and advances by
    /// `speed` virtual ticks every clock tick.
    pub fn with_speed(speed: Speed, now: u64) -> (sw: Stopwatch)
        ensures
            sw@ == Timeline::fresh(speed.num(), speed.den(), now as int),
            sw@.time(now as int) == 0,
            sw@.wf(),
    {
        proof {
            use_type_invariant(&speed);
            lemma_product_bound(now as int, speed.num as int);
            law_fresh_reads_zero(speed.num as int, speed.den as int, now as int);
        }
        Stopwatch { origin: (now as i128) * (speed.num as i128), paused_at: None, speed }
    }

    /// Returns whether the stopwatch is paused.
    pub fn paused(&self) -> (b: bool)
        ensures
            b == self@.paused(),
    {
        self.paused_at.is_some()
    }

    /// Pauses the stopwatch at `now`. If it was already paused, this does
    /// nothing.
    pub fn pause(&mut self, now: u64)
        ensures
            final(self)@ == old(self)@.pause(now as int),
            final(self)@.paused(),
            final(self)@.wf(),
    {
        proof {
            use_type_invariant(&*self);
        }
        self.paused_at = Some(self.get_end_time(now));
    }

    /// Unpauses the stopwatch at `now`, so that it goes on from the time at
    /// which it was paused. If it was not paused, this does nothing.
    pub fn unpause(&mut self, now: u64)
        ensures
            final(self)@ == old(self)@.unpause(now as int),
            !final(self)@.paused(),
            old(self)@.unpause_fits(now as int) ==> final(self)@.time(now as int) == old(self)@.time(
                now as int,
            ),
            final(self)@.wf(),
    {
        proof {
            use_type_invariant(&*self);
        }
        if self.paused() {
            let frozen: i128 = self.scaled_time(now);
            proof {
                lemma_product_bound(now as int, self.speed.num as int);
            }
            let reading: i128 = (now as i128) * (self.speed.num as i128);
            self.origin = clamp_to_limit(reading - frozen, ORIGIN_LIMIT);
            self.paused_at = None;
        }
    }

    /// Toggles whether the stopwatch is paused.
    pub fn toggle_pause(&mut self, now: u64)
        ensures
            final(self)@ == old(self)@.toggle_pause(now as int),
            final(self)@.wf(),
    {
        if self.paused() {
            self.unpause(now);
        } else {
            self.pause(now);
        }
    }

    /// Gets the virtual time at `now`.
    pub fn get_time(&self, now: u64) -> (t: i64)
        ensures
            t == self@.time(now as int),
            self@.wf(),
    {
        proof {
            use_type_invariant(self);
        }
        clamp_to_i64(floor_div(self.scaled_time(now), self.speed.den))
    }

    /// Sets the virtual time at `now` to `cur_time`. A paused stopwatch
    /// stays paused, and reads `cur_time` from then on.
    pub fn set_time(&mut self, cur_time: i64, now: u64)
        ensures
            final(self)@ == old(self)@.set_time(cur_time as int, now as int),
            final(self)@.time(now as int) == cur_time,
            final(self)@.wf(),
    {
        proof {
            use_type_invariant(&*self);
        }
        let end: u64 = self.get_end_time(now);
        proof {
            lemma_product_bound(end as int, self.speed.num as int);
            lemma_signed_product_bound(cur_time as int, self.speed.den as int);
        }
        let reading: i128 = (end as i128) * (self.speed.num as i128);
        let target: i128 = (cur_time as i128) * (self.speed.den as i128);
        self.origin = reading - target;
        proof {
            law_set_time_round_trip(old(self)@, cur_time as int, now as int, now as int);
        }
    }

    /// Resets the stopwatch to zero at `now`.
    pub fn reset(&mut self, now: u64)
        ensures
            final(self)@ == old(self)@.set_time(0, now as int),
            final(self)@.time(now as int) == 0,
            final(self)@.wf(),
    {
        self.set_time(0, now);
    }

    /// Advances the stopwatch by `time_diff` virtual ticks.
    pub fn add_time(&mut self, time_diff: i64)
        ensures
            final(self)@ == old(self)@.add_time(time_diff as int),
            final(self)@.wf(),
    {
        proof {
            use_type_invariant(&*self);
            lemma_signed_product_bound(time_diff as int, self.speed.den as int);
        }
        let shift: i128 = (time_diff as i128) * (self.speed.den as i128);
        self.origin = clamp_to_limit(self.origin - shift, ORIGIN_LIMIT);
    }

    fn get_end_time(&self, now: u64) -> (end: u64)
        ensures
            end == self@.end_time(now as int),
    {
        match self.paused_at {
            None => now,
            Some(paused_at) => paused_at,
        }
    }

    /// Virtual time at `now` in units of one tick divided by the speed's
    /// denominator.
    fn scaled_time(&self, now: u64) -> (scaled: i128)
        ensures
            scaled == self@.scaled_time(now as int),
            -ORIGIN_LIMIT <= scaled <= ORIGIN_LIMIT + 0x1_0000_0000_0000_0000_0000_0000,
    {
        proof {
            use_type_invariant(self);
        }
        let end: u64 = self.get_end_time(now);
        proof {
            lemma_product_bound(end as int, self.speed.num as int);
        }
        (end as i128) * (self.speed.num as i128) - self.origin
    }
}

} // verus!
