//! A frame-rate reporter: counts frames and, each time a set interval has
//! passed on its own stopwatch, gives the figures of the frames since the
//! last report.

use vstd::prelude::*;
use vstd::arithmetic::div_mod::{lemma_div_is_ordered_by_denominator, lemma_div_pos_is_pos};
use crate::arith::{clamp, wrap_i32, wrap_to_i32};
use crate::text::{
    decimal, push_decimal, push_signed_decimal, push_two_digits, signed_decimal, two_digits,
};
use crate::timeline::Timeline;
use crate::Stopwatch;

verus! {

/// The clock ticks in one second: a tick is a microsecond.
pub const TICKS_PER_SECOND: u64 = 1_000_000;

/// The clock ticks in a hundredth of a millisecond.
pub const TICKS_PER_CENTIMILLI: u64 = 10;

/// The figures of one report.
#[derive(Clone, Copy, Debug, PartialEq, Eq)]
pub struct FpsReport {
    /// Frames per second since the last report, rounded down.
    pub fps: i64,
    /// Time per frame since the last report in hundredths of a millisecond,
    /// rounded to the nearest.
    pub frame_time: u64,
    /// Frames per second since the reporter was made, rounded down.
    pub average_fps: i64,
}

impl FpsReport {
    /// The report as one line of text: the frame rate, the time per frame
    /// in milliseconds with two decimals, and the average frame rate.
    pub open spec fn text(self) -> Seq<char> {
        "FPS: "@ + signed_decimal(self.fps as int) + "; ms/frame: "@ + decimal(
            (self.frame_time / 100) as nat,
        ) + "."@ + two_digits((self.frame_time % 100) as nat) + "; average FPS: "@
            + signed_decimal(self.average_fps as int)
    }

    /// Writes the report out as one line of text.
    pub fn message(&self) -> (line: String)
        ensures
            line@ == self.text(),
    {
        let mut line = String::new();
        line.append("FPS: ");
        push_signed_decimal(&mut line, self.fps);
        line.append("; ms/frame: ");
        push_decimal(&mut line, self.frame_time / 100);
        line.append(".");
        push_two_digits(&mut line, self.frame_time % 100);
        line.append("; average FPS: ");
        push_signed_decimal(&mut line, self.average_fps);
        assert(line@ =~= self.text());
        line
    }
}

/// `n + 1`, unless `n` is the largest count there is.
pub open spec fn counted(n: int) -> int {
    if n < u64::MAX {
        n + 1
    } else {
        n
    }
}

/// `limit + interval`, or the largest limit there is if that is less.
pub open spec fn advanced(limit: int, interval: int) -> int {
    if limit + interval <= u64::MAX {
        limit + interval
    } else {
        u64::MAX as int
    }
}

/// Whole frames per second, for `frames` frames in `elapsed` ticks; at most
/// the largest `i64`.
pub open spec fn frame_rate(frames: int, elapsed: int) -> int {
    clamp(frames * TICKS_PER_SECOND / elapsed, 0, i64::MAX as int)
}

/// Hundredths of a millisecond per frame, for `frames` frames in `elapsed`
/// ticks; a half is rounded up.
pub open spec fn frame_time(frames: int, elapsed: int) -> int {
    let unit = TICKS_PER_CENTIMILLI * frames;
    (2 * elapsed + unit) / (2 * unit)
}

/// The state of a reporter as mathematical integers.
pub struct Reporter {
    /// The stopwatch's time when the reporter was made.
    pub start_time: int,
    /// The stopwatch's time at the last report; at first, `start_time`.
    pub prev_time: int,
    /// The ticks from one report to the next.
    pub interval: int,
    /// The time since `start_time` at which the next report is due.
    pub next_log_time: int,
    /// The frames since the reporter was made.
    pub total_frames: int,
    /// The frames since the last report.
    pub frames: int,
    /// The frame rate of the last report; zero before the first.
    pub last_fps: int,
    /// The reporter's own stopwatch.
    pub stopwatch: Timeline,
}

impl Reporter {
    /// The values that a reporter can hold.
    pub open spec fn wf(self) -> bool {
        &&& i64::MIN <= self.start_time <= self.prev_time <= i64::MAX
        &&& 0 <= self.interval <= u64::MAX
        &&& 0 <= self.next_log_time <= u64::MAX
        &&& 0 <= self.frames <= u64::MAX
        &&& 0 <= self.total_frames <= u64::MAX
        &&& i32::MIN <= self.last_fps <= i32::MAX
        &&& self.stopwatch.wf()
    }

    /// A reporter made at the clock reading `now`.
    pub open spec fn fresh(interval: int, now: int) -> Reporter {
        Reporter {
            start_time: 0,
            prev_time: 0,
            interval,
            next_log_time: interval,
            total_frames: 0,
            frames: 0,
            last_fps: 0,
            stopwatch: Timeline::fresh(1, 1, now),
        }
    }

    /// Whether a frame at the clock reading `now` gives a report: the time
    /// since the start has reached `next_log_time`, and time has passed
    /// since the last report.
    pub open spec fn due(self, now: int) -> bool {
        let time = self.stopwatch.time(now);
        time - self.start_time >= self.next_log_time && time > self.prev_time
    }

    /// The report that a frame at the clock reading `now` gives, if it
    /// gives one. The frame itself is counted.
    pub open spec fn report(self, now: int) -> Option<FpsReport> {
        let time = self.stopwatch.time(now);
        if self.due(now) {
            Some(
                FpsReport {
                    fps: frame_rate(counted(self.frames), time - self.prev_time) as i64,
                    frame_time: frame_time(counted(self.frames), time - self.prev_time) as u64,
                    average_fps: frame_rate(
                        counted(self.total_frames),
                        time - self.start_time,
                    ) as i64,
                },
            )
        } else {
            None
        }
    }

    /// The reporter after a frame at the clock reading `now`.
    pub open spec fn update(self, now: int) -> Reporter {
        let time = self.stopwatch.time(now);
        if self.due(now) {
            Reporter {
                prev_time: time,
                next_log_time: advanced(self.next_log_time, self.interval),
                total_frames: counted(self.total_frames),
                frames: 0,
                last_fps: wrap_i32(frame_rate(counted(self.frames), time - self.prev_time)),
                ..self
            }
        } else {
            Reporter {
                total_frames: counted(self.total_frames),
                frames: counted(self.frames),
                ..self
            }
        }
    }
}

/// `n + 1`, unless `n` is the largest count there is.
fn count_one(n: u64) -> (r: u64)
    ensures
        r == counted(n as int),
{
    if n < u64::MAX {
        n + 1
    } else {
        n
    }
}

/// Whole frames per second, for `frames` frames in `elapsed` ticks.
fn rate_of(frames: u64, elapsed: u64) -> (r: i64)
    requires
        elapsed > 0,
    ensures
        r == frame_rate(frames as int, elapsed as int),
{
    assert(frames * TICKS_PER_SECOND == frames * 1_000_000) by (nonlinear_arith)
        requires
            TICKS_PER_SECOND == 1_000_000,
    ;
    let scaled: u128 = (frames as u128) * (TICKS_PER_SECOND as u128);
    let rate: u128 = scaled / (elapsed as u128);
    proof {
        lemma_div_pos_is_pos(scaled as int, elapsed as int);
    }
    if rate > i64::MAX as u128 {
        i64::MAX
    } else {
        rate as i64
    }
}

/// Hundredths of a millisecond per frame, for `frames` frames in `elapsed`
/// ticks.
fn time_per_frame(frames: u64, elapsed: u64) -> (r: u64)
    requires
        frames > 0,
    ensures
        r == frame_time(frames as int, elapsed as int),
{
    assert(TICKS_PER_CENTIMILLI * frames == 10 * frames) by (nonlinear_arith)
        requires
            TICKS_PER_CENTIMILLI == 10,
    ;
    let unit: u128 = (TICKS_PER_CENTIMILLI as u128) * (frames as u128);
    let doubled: u128 = 2 * (elapsed as u128) + unit;
    proof {
        lemma_div_is_ordered_by_denominator(doubled as int, 20, 2 * unit as int);
        lemma_div_pos_is_pos(doubled as int, 2 * unit as int);
    }
    (doubled / (2 * unit)) as u64
}

/// Counts frames and reports the frame rate at a set interval.
pub struct FpsLogger {
    start_time: i64,
    prev_time: i64,
    ticks_between_logs: u64,
    next_log_time: u64,
    total_frames: u64,
    frames: u64,
    last_fps: i32,
    stopwatch: Stopwatch,
}

impl View for FpsLogger {
    type V = Reporter;

    closed spec fn view(&self) -> Reporter {
        Reporter {
            start_time: self.start_time as int,
            prev_time: self.prev_time as int,
            interval: self.ticks_between_logs as int,
            next_log_time: self.next_log_time as int,
            total_frames: self.total_frames as int,
            frames: self.frames as int,
            last_fps: self.last_fps as int,
            stopwatch: self.stopwatch@,
        }
    }
}

impl FpsLogger {
    #[verifier::type_invariant]
    closed spec fn inv(self) -> bool {
        &&& self.start_time <= self.prev_time
        &&& self.stopwatch@.wf()
    }

    /// Creates a reporter at the clock reading `now` that reports every
    /// `ticks_between_logs` ticks. With an interval of zero, every frame
    /// that comes after time has passed since the last report gives one.
    pub fn new(ticks_between_logs: u64, now: u64) -> (logger: FpsLogger)
        ensures
            logger@ == Reporter::fresh(ticks_between_logs as int, now as int),
            logger@.wf(),
    {
        let stopwatch = Stopwatch::new(now);
        let start_time = stopwatch.get_time(now);
        FpsLogger {
            start_time,
            prev_time: start_time,
            ticks_between_logs,
            next_log_time: ticks_between_logs,
            total_frames: 0,
            frames: 0,
            last_fps: 0,
            stopwatch,
        }
    }

    /// Counts one frame at the clock reading `now`. Where the interval has
    /// passed, and time has passed since the last report, returns the
    /// report of the frames since then, and starts the next interval: it
    /// ends one interval after the end of this one, however late the frame
    /// came. Else only the two counts change.
    pub fn update(&mut self, now: u64) -> (report: Option<FpsReport>)
        ensures
            report == old(self)@.report(now as int),
            final(self)@ == old(self)@.update(now as int),
            final(self)@.wf(),
    {
        proof {
            use_type_invariant(&*self);
        }
        self.frames = count_one(self.frames);
        self.total_frames = count_one(self.total_frames);
        let time = self.stopwatch.get_time(now);
        let since_start: i128 = time as i128 - self.start_time as i128;
        if since_start >= self.next_log_time as i128 && time > self.prev_time {
            let elapsed: u64 = (time as i128 - self.prev_time as i128) as u64;
            let fps = rate_of(self.frames, elapsed);
            let report = FpsReport {
                fps,
                frame_time: time_per_frame(self.frames, elapsed),
                average_fps: rate_of(self.total_frames, since_start as u64),
            };
            self.last_fps = wrap_to_i32(fps);
            self.prev_time = time;
            self.next_log_time = if self.next_log_time <= u64::MAX - self.ticks_between_logs {
                self.next_log_time + self.ticks_between_logs
            } else {
                u64::MAX
            };
            self.frames = 0;
            Some(report)
        } else {
            None
        }
    }

    /// Returns the frame rate of the last report, cut down to 32 bits; zero
    /// before the first report.
    pub fn last_fps(&self) -> (fps: i32)
        ensures
            fps == self@.last_fps,
    {
        self.last_fps
    }

    /// Returns the time since the start at which the next report is due.
    pub fn next_log_time(&self) -> (ticks: u64)
        ensures
            ticks == self@.next_log_time,
    {
        self.next_log_time
    }

    /// Returns the number of frames since the last report.
    pub fn frames(&self) -> (n: u64)
        ensures
            n == self@.frames,
    {
        self.frames
    }

    /// Returns the number of frames since the reporter was made.
    pub fn total_frames(&self) -> (n: u64)
        ensures
            n == self@.total_frames,
    {
        self.total_frames
    }
}

} // verus!
