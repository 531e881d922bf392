//! What holds of every stopwatch and of every reporter, stated over their
//! models and proved.

use vstd::prelude::*;
use vstd::arithmetic::div_mod::{
    lemma_div_is_ordered, lemma_div_multiples_vanish, lemma_fundamental_div_mod, lemma_mod_bound,
};
use vstd::arithmetic::mul::{lemma_mul_inequality, lemma_mul_is_commutative};
use crate::arith::{clamp, lemma_product_bound, lemma_signed_product_bound};
use crate::fps_logger::{advanced, counted, Reporter};
use crate::timeline::Timeline;

verus! {

/// One call that switches a stopwatch on or off.
pub enum Switch {
    Pause,
    Unpause,
}

/// A switch and the clock reading at which it is made.
pub struct Event {
    pub switch: Switch,
    pub at: int,
}

/// The timeline after one event.
pub open spec fn apply(tl: Timeline, event: Event) -> Timeline {
    match event.switch {
        Switch::Pause => tl.pause(event.at),
        Switch::Unpause => tl.unpause(event.at),
    }
}

/// The timeline after a sequence of events, first to last.
pub open spec fn replay(tl: Timeline, events: Seq<Event>) -> Timeline
    decreases events.len(),
{
    if events.len() == 0 {
        tl
    } else {
        replay(apply(tl, events[0]), events.skip(1))
    }
}

/// The events come in the order of a clock that never runs backwards, none
/// before `from` and none after `to`.
pub open spec fn in_clock_order(events: Seq<Event>, from: int, to: int) -> bool {
    &&& forall|i: int| 0 <= i < events.len() ==> from <= #[trigger] events[i].at <= to
    &&& forall|i: int, j: int|
        0 <= i <= j < events.len() ==> #[trigger] events[i].at <= #[trigger] events[j].at
}

/// The pause point of `tl`, if it has one, is not later than `now`.
pub open spec fn paused_by(tl: Timeline, now: int) -> bool {
    tl.paused_at matches Some(p) ==> p <= now
}

/// A larger scaled time gives a reading that is not smaller.
proof fn lemma_reading_is_ordered(a: int, b: int, den: int)
    requires
        a <= b,
        den > 0,
    ensures
        clamp(a / den, i64::MIN as int, i64::MAX as int) <= clamp(
            b / den,
            i64::MIN as int,
            i64::MAX as int,
        ),
{
    lemma_div_is_ordered(a, b, den);
}

/// A scaled time whose whole ticks fit `i64` lies within 2^95 + 2^32 of
/// zero.
proof fn lemma_scaled_time_in_range(scaled: int, den: int)
    requires
        0 < den <= u32::MAX,
        i64::MIN <= scaled / den <= i64::MAX,
    ensures
        -0x8000_0000_0000_0000_0000_0000 <= scaled < 0x8000_0001_0000_0000_0000_0000,
{
    let q = scaled / den;
    let r = scaled % den;
    lemma_fundamental_div_mod(scaled, den);
    lemma_mod_bound(scaled, den);
    lemma_signed_product_bound(q, den);
    lemma_mul_is_commutative(q, den);
}

/// A stopwatch that was just made reads zero, whatever its speed.
pub proof fn law_fresh_reads_zero(num: int, den: int, now: int)
    requires
        den > 0,
    ensures
        Timeline::fresh(num, den, now).time(now) == 0,
        !Timeline::fresh(num, den, now).paused(),
{
    assert(0int / den == 0) by (nonlinear_arith)
        requires
            den > 0,
    ;
}

/// While a stopwatch runs, a later clock reading never gives an earlier
/// time.
pub proof fn law_running_time_never_decreases(tl: Timeline, earlier: int, later: int)
    requires
        tl.wf(),
        !tl.paused(),
        earlier <= later,
    ensures
        tl.time(earlier) <= tl.time(later),
{
    lemma_mul_inequality(earlier, later, tl.num);
    lemma_reading_is_ordered(tl.scaled_time(earlier), tl.scaled_time(later), tl.den);
}

/// While a stopwatch is paused, its time is the same at every clock
/// reading.
pub proof fn law_paused_time_is_constant(tl: Timeline, now: int, then: int)
    requires
        tl.paused(),
    ensures
        tl.time(now) == tl.time(then),
{
}

/// Pausing freezes the time of that moment: from then on the stopwatch
/// reads what it read when it was paused.
pub proof fn law_pause_freezes_time(tl: Timeline, now: int, then: int)
    ensures
        tl.pause(now).paused(),
        tl.pause(now).time(then) == tl.time(now),
{
}

/// Unpausing goes on from the frozen time without a jump, unless the
/// origin would pass its limit.
pub proof fn law_unpause_continues(tl: Timeline, now: int)
    requires
        tl.wf(),
        tl.unpause_fits(now),
    ensures
        !tl.unpause(now).paused(),
        tl.unpause(now).time(now) == tl.time(now),
{
}

/// Unpausing keeps the origin within its limit wherever the frozen time
/// fits `i64`.
pub proof fn law_unpause_in_range_is_within_limit(tl: Timeline, now: int)
    requires
        tl.wf(),
        0 <= now <= u64::MAX,
        i64::MIN <= tl.exact_time(now) <= i64::MAX,
    ensures
        tl.unpause_fits(now),
{
    lemma_scaled_time_in_range(tl.scaled_time(now), tl.den);
    lemma_product_bound(now, tl.num);
}


/// One event at a clock reading that is not earlier than `now` and not
/// earlier than the pause point leaves a time that is not smaller.
proof fn lemma_event_never_decreases(tl: Timeline, event: Event, now: int)
    requires
        tl.wf(),
        paused_by(tl, now),
        0 <= now <= event.at <= u64::MAX,
    ensures
        tl.time(now) <= apply(tl, event).time(event.at),
        apply(tl, event).wf(),
        paused_by(apply(tl, event), event.at),
{
    let after = apply(tl, event);
    match tl.paused_at {
        None => {
            law_running_time_never_decreases(tl, now, event.at);
        },
        Some(p) => {
            if event.switch is Unpause {
                lemma_mul_inequality(p, event.at, tl.num);
                assert(after.scaled_time(event.at) >= tl.scaled_time(now));
                lemma_reading_is_ordered(
                    tl.scaled_time(now),
                    after.scaled_time(event.at),
                    tl.den,
                );
            }
        },
    }
}

/// Whatever sequence of pausing and unpausing a stopwatch goes through,
/// on a clock that never runs backwards, its time never decreases.
pub proof fn law_time_never_decreases(tl: Timeline, events: Seq<Event>, from: int, to: int)
    requires
        tl.wf(),
        paused_by(tl, from),
        0 <= from <= to <= u64::MAX,
        in_clock_order(events, from, to),
    ensures
        tl.time(from) <= replay(tl, events).time(to),
        replay(tl, events).wf(),
    decreases events.len(),
{
    if events.len() == 0 {
        if !tl.paused() {
            law_running_time_never_decreases(tl, from, to);
        }
    } else {
        let first = events[0];
        let rest = events.skip(1);
        lemma_event_never_decreases(tl, first, from);
        assert forall|i: int| 0 <= i < rest.len() implies first.at <= #[trigger] rest[i].at <= to by {
            assert(rest[i] == events[i + 1]);
        }
        assert forall|i: int, j: int| 0 <= i <= j < rest.len() implies #[trigger] rest[i].at
            <= #[trigger] rest[j].at by {
            assert(rest[i] == events[i + 1]);
            assert(rest[j] == events[j + 1]);
        }
        law_time_never_decreases(apply(tl, first), rest, first.at, to);
    }
}

/// Pausing twice in a row is pausing once.
pub proof fn law_pause_is_idempotent(tl: Timeline, first: int, second: int)
    ensures
        tl.pause(first).pause(second) == tl.pause(first),
{
}

/// Unpausing twice in a row is unpausing once.
pub proof fn law_unpause_is_idempotent(tl: Timeline, first: int, second: int)
    ensures
        tl.unpause(first).unpause(second) == tl.unpause(first),
{
}

/// Right after the time is set, the stopwatch reads that time, paused or
/// not; a paused one reads it at every later clock reading too.
pub proof fn law_set_time_round_trip(tl: Timeline, cur_time: int, now: int, then: int)
    requires
        tl.wf(),
        i64::MIN <= cur_time <= i64::MAX,
    ensures
        tl.set_time(cur_time, now).time(now) == cur_time,
        tl.set_time(cur_time, now).paused() == tl.paused(),
        tl.paused() ==> tl.set_time(cur_time, now).time(then) == cur_time,
{
    lemma_div_multiples_vanish(cur_time, tl.den);
    lemma_mul_is_commutative(cur_time, tl.den);
}

/// Adding a time shifts every reading by it, unless the origin would pass
/// its limit.
pub proof fn law_add_time_shifts(tl: Timeline, time_diff: int, now: int)
    requires
        tl.wf(),
        tl.add_time_fits(time_diff),
    ensures
        tl.add_time(time_diff).exact_time(now) == tl.exact_time(now) + time_diff,
        tl.add_time(time_diff).paused() == tl.paused(),
{
    let s = tl.scaled_time(now);
    assert((s + time_diff * tl.den) / tl.den == s / tl.den + time_diff) by (nonlinear_arith)
        requires
            tl.den > 0,
    ;
}

/// Adding a time and then taking it away again restores the stopwatch, and
/// with it every reading and the paused state, unless the origin would pass
/// its limit on the way.
pub proof fn law_add_time_round_trip(tl: Timeline, time_diff: int)
    requires
        tl.wf(),
        tl.add_time_fits(time_diff),
    ensures
        tl.add_time(time_diff).add_time(-time_diff) == tl,
{
    assert((-time_diff) * tl.den == -(time_diff * tl.den)) by (nonlinear_arith);
}

/// Adding a time keeps the origin within its limit wherever the time after
/// it fits `i64` at some clock reading.
pub proof fn law_add_time_in_range_is_within_limit(tl: Timeline, time_diff: int, now: int)
    requires
        tl.wf(),
        0 <= now <= u64::MAX,
        i64::MIN <= tl.exact_time(now) + time_diff <= i64::MAX,
    ensures
        tl.add_time_fits(time_diff),
{
    let shifted = tl.scaled_time(now) + time_diff * tl.den;
    assert(shifted / tl.den == tl.scaled_time(now) / tl.den + time_diff) by (nonlinear_arith)
        requires
            tl.den > 0,
            shifted == tl.scaled_time(now) + time_diff * tl.den,
    ;
    lemma_scaled_time_in_range(shifted, tl.den);
    lemma_product_bound(tl.end_time(now), tl.num);
}

/// A stopwatch with speed `num / den` that has run for `elapsed` clock
/// ticks since it was made reads `elapsed * num / den`, rounded down.
pub proof fn law_speed_scales_time(num: int, den: int, start: int, elapsed: int)
    requires
        den > 0,
    ensures
        Timeline::fresh(num, den, start).exact_time(start + elapsed) == (elapsed * num) / den,
{
    assert((start + elapsed) * num - start * num == elapsed * num) by (nonlinear_arith);
}

/// A frame that crosses the interval gives a report, and the next one is
/// due one interval after this one was, however late the frame came.
pub proof fn law_report_advances_one_interval(reporter: Reporter, now: int)
    requires
        reporter.due(now),
    ensures
        reporter.report(now) is Some,
        reporter.update(now).next_log_time == advanced(reporter.next_log_time, reporter.interval),
        reporter.next_log_time + reporter.interval <= u64::MAX ==> reporter.update(
            now,
        ).next_log_time == reporter.next_log_time + reporter.interval,
        reporter.update(now).prev_time == reporter.stopwatch.time(now),
        reporter.update(now).frames == 0,
{
}

/// A frame that does not cross the interval gives no report and changes
/// nothing but the two counts.
pub proof fn law_quiet_frame_only_counts(reporter: Reporter, now: int)
    requires
        !reporter.due(now),
    ensures
        reporter.report(now) is None,
        reporter.update(now) == (Reporter {
            frames: counted(reporter.frames),
            total_frames: counted(reporter.total_frames),
            ..reporter
        }),
{
}

} // verus!
