//! The closed set of counting strategies and the once-per-tick value
//! computation each one performs.

use vstd::prelude::*;
use vstd::arithmetic::div_mod::{
    lemma_add_mod_noop, lemma_mod_bound, lemma_mod_multiples_vanish, lemma_small_mod,
};
use crate::clock::{clock_hours, clock_minutes, clock_seconds, sec_to_timestamp, SECONDS_IN_DAY};

verus! {

/// A counting strategy: given a start value and the elapsed whole seconds
/// since the anchor instant, each mode produces the activation's next value.
#[derive(Copy, Clone, Debug, Default, PartialEq, Eq, Hash, Structural)]
pub enum Mode {
    /// Counts up towards infinity; saturates at `i64::MAX`.
    #[default]
    Counter,
    /// Counts down; saturates at `i64::MIN` (negative values are valid and
    /// stand for "past due").
    Timer,
    /// Matches the local wall-clock time of day plus a configured offset,
    /// wrapping silently every twenty-four hours; never saturates.
    SystemTime,
}

/// The value the counting-up mode reaches: the start value plus the elapsed
/// seconds, clamped at `i64::MAX`.
pub open spec fn counter_value(start: int, elapsed: nat) -> int {
    if start + elapsed <= i64::MAX {
        start + elapsed
    } else {
        i64::MAX as int
    }
}

/// The value the counting-down mode reaches: the start value minus the
/// elapsed seconds, clamped at `i64::MIN`.
pub open spec fn timer_value(start: int, elapsed: nat) -> int {
    if start - elapsed >= i64::MIN {
        start - elapsed
    } else {
        i64::MIN as int
    }
}

/// The value the wall-clock mode shows: the local time of day plus the start
/// value as an offset, wrapped into one day. `%` here is the Euclidean
/// remainder, so the result lies in `[0, 86400)` whatever the offset's sign.
pub open spec fn wall_clock_value(start: int, time_of_day: int) -> int {
    (time_of_day + start) % (SECONDS_IN_DAY as int)
}

/// The value an activation in mode `m` shows after `elapsed` whole seconds,
/// when the local time of day is `time_of_day` seconds past midnight.
pub open spec fn advance_value(m: Mode, start: int, elapsed: nat, time_of_day: int) -> int {
    match m {
        Mode::Counter => counter_value(start, elapsed),
        Mode::Timer => timer_value(start, elapsed),
        Mode::SystemTime => wall_clock_value(start, time_of_day),
    }
}

/// Whether mode `m` has reached its numeric limit after `elapsed` seconds.
/// Saturation is terminal for the counting modes; the wall-clock mode never
/// saturates.
pub open spec fn advance_saturated(m: Mode, start: int, elapsed: nat) -> bool {
    match m {
        Mode::Counter => start + elapsed > i64::MAX,
        Mode::Timer => start - elapsed < i64::MIN,
        Mode::SystemTime => false,
    }
}

/// One tick's computed result: the new value, its clock decomposition for
/// display, and whether the numeric limit was reached.
pub struct Advance {
    /// The new value, in signed seconds.
    pub value: i64,
    /// Seconds place of the display decomposition.
    pub seconds: u64,
    /// Minutes place of the display decomposition.
    pub minutes: u64,
    /// Hours place of the display decomposition.
    pub hours: u64,
    /// Whether the display carries a leading minus sign.
    pub negative: bool,
    /// Whether the value saturated at a numeric limit this tick.
    pub saturated: bool,
}

impl Mode {
    /// The caption shown beside the start-value control for this mode.
    pub fn get_desc(self) -> (r: &'static str)
        ensures
            self is Counter ==> r@ == "Time to Start Counting Up from:"@,
            self is Timer ==> r@ == "Time to Start Counting Down from:"@,
            self is SystemTime ==> r@ == "Time to add to Current Local Time:"@,
    {
        match self {
            Self::Counter => "Time to Start Counting Up from:",
            Self::Timer => "Time to Start Counting Down from:",
            Self::SystemTime => "Time to add to Current Local Time:",
        }
    }

    /// The short name this mode is listed under.
    pub fn display_name(self) -> (r: &'static str)
        ensures
            self is Counter ==> r@ == "Counter (Up)"@,
            self is Timer ==> r@ == "Timer (Down)"@,
            self is SystemTime ==> r@ == "SystemTime"@,
    {
        match self {
            Self::Counter => "Counter (Up)",
            Self::Timer => "Timer (Down)",
            Self::SystemTime => "SystemTime",
        }
    }

    /// Computes the value this mode shows `elapsed_secs` whole seconds after
    /// an activation anchored at `start_sec`, together with its display
    /// decomposition. `time_of_day` is the local time in seconds past
    /// midnight; only the wall-clock mode reads it.
    pub fn get_timestamp(self, start_sec: i64, elapsed_secs: u64, time_of_day: u64) -> (r:
        Advance)
        requires
            time_of_day < SECONDS_IN_DAY,
        ensures
            r.value == advance_value(self, start_sec as int, elapsed_secs as nat, time_of_day as int),
            r.saturated == advance_saturated(self, start_sec as int, elapsed_secs as nat),
            r.seconds == clock_seconds(r.value as int),
            r.minutes == clock_minutes(r.value as int),
            r.hours == clock_hours(r.value as int),
            r.negative == (r.value < 0),
            self is SystemTime ==> 0 <= r.value < SECONDS_IN_DAY && !r.saturated && !r.negative,
    {
        let value: i64;
        let saturated: bool;
        match self {
            Self::Counter => {
                let wide: i128 = start_sec as i128 + elapsed_secs as i128;
                if wide > i64::MAX as i128 {
                    value = i64::MAX;
                    saturated = true;
                } else {
                    value = wide as i64;
                    saturated = false;
                }
            },
            Self::Timer => {
                let wide: i128 = start_sec as i128 - elapsed_secs as i128;
                if wide < i64::MIN as i128 {
                    value = i64::MIN;
                    saturated = true;
                } else {
                    value = wide as i64;
                    saturated = false;
                }
            },
            Self::SystemTime => {
                // Shift the sum into non-negative range by a whole number of
                // days before reducing, so the reduction can use unsigned
                // arithmetic: DAY_LIFT * 86400 exceeds the magnitude of any
                // i64 start value.
                let lifted: i128 = time_of_day as i128 + start_sec as i128 + DAY_LIFT
                    * SECONDS_IN_DAY as i128;
                let reduced: i128 = lifted % (SECONDS_IN_DAY as i128);
                proof {
                    lemma_mod_bound(lifted as int, SECONDS_IN_DAY as int);
                    lemma_mod_multiples_vanish(
                        DAY_LIFT as int,
                        time_of_day as int + start_sec as int,
                        SECONDS_IN_DAY as int,
                    );
                }
                value = reduced as i64;
                saturated = false;
            },
        }
        let (s, m, h, neg) = sec_to_timestamp(value);
        Advance { value, seconds: s, minutes: m, hours: h, negative: neg, saturated }
    }
}

/// Counting-up law: an activation started at `v0` and ticked for `n` whole
/// seconds shows exactly `v0 + n` as long as that fits an `i64`; beyond the
/// limit it shows `i64::MAX` and reports saturation.
pub proof fn lemma_count_up(v0: i64, n: nat, time_of_day: int)
    ensures
        v0 + n <= i64::MAX ==> advance_value(Mode::Counter, v0 as int, n, time_of_day) == v0 + n
            && !advance_saturated(Mode::Counter, v0 as int, n),
        v0 + n > i64::MAX ==> advance_value(Mode::Counter, v0 as int, n, time_of_day)
            == i64::MAX as int && advance_saturated(Mode::Counter, v0 as int, n),
{
}

/// Counting-down law, the mirror image: the value is exactly `v0 - n` as
/// long as that fits an `i64`, and clamps to `i64::MIN` with a saturation
/// report beyond it.
pub proof fn lemma_count_down(v0: i64, n: nat, time_of_day: int)
    ensures
        v0 - n >= i64::MIN ==> advance_value(Mode::Timer, v0 as int, n, time_of_day) == v0 - n
            && !advance_saturated(Mode::Timer, v0 as int, n),
        v0 - n < i64::MIN ==> advance_value(Mode::Timer, v0 as int, n, time_of_day)
            == i64::MIN as int && advance_saturated(Mode::Timer, v0 as int, n),
{
}

/// Saturation is terminal: once a counting mode has reached its numeric
/// limit after `n1` seconds, it stays there for every later tick, so the
/// engine may stop the activation after reporting the limit once.
pub proof fn lemma_saturation_terminal(m: Mode, v0: int, n1: nat, n2: nat)
    requires
        n1 <= n2,
        advance_saturated(m, v0, n1),
    ensures
        advance_saturated(m, v0, n2),
{
}

/// Wall-clock law: whatever the configured offset, the shown value is a
/// valid second-of-day, the mode never saturates, and one more second of
/// wall-clock time moves the value one step forward, wrapping at midnight.
pub proof fn lemma_wall_clock(start: int, time_of_day: int, elapsed: nat)
    requires
        0 <= time_of_day,
    ensures
        0 <= wall_clock_value(start, time_of_day) < SECONDS_IN_DAY,
        !advance_saturated(Mode::SystemTime, start, elapsed),
        wall_clock_value(start, time_of_day + 1) == (wall_clock_value(start, time_of_day) + 1)
            % (SECONDS_IN_DAY as int),
{
    let day = SECONDS_IN_DAY as int;
    lemma_mod_bound(time_of_day + start, day);
    lemma_add_mod_noop(time_of_day + start, 1, day);
    lemma_small_mod(1, day as nat);
    lemma_mod_bound((time_of_day + start) % day + 1, day);
    assert(wall_clock_value(start, time_of_day + 1) == ((time_of_day + start) % day + 1int % day)
        % day);
}

/// A day count whose span in seconds exceeds the magnitude of any `i64`
/// seconds value; used to shift a sum into non-negative range before
/// reducing it modulo one day.
pub const DAY_LIFT: i128 = 106_751_991_167_301;

} // verus!
