//! Timestamp arithmetic: pure conversions between a signed seconds count and
//! an `(hours, minutes, seconds, sign)` clock decomposition.

use vstd::prelude::*;
use vstd::arithmetic::div_mod::{
    lemma_div_denominator, lemma_fundamental_div_mod, lemma_mod_bound, lemma_div_pos_is_pos,
};

verus! {

pub const SECONDS_IN_MINUTE: u64 = 60;
pub const MINUTES_IN_HOUR: u64 = 60;
pub const HOURS_IN_DAY: u64 = 24;
pub const SECONDS_IN_HOUR: u64 = SECONDS_IN_MINUTE * MINUTES_IN_HOUR;
pub const SECONDS_IN_DAY: u64 = SECONDS_IN_MINUTE * MINUTES_IN_HOUR * HOURS_IN_DAY;

/// The magnitude of a signed seconds count.
pub open spec fn abs_seconds(sec: int) -> nat {
    if sec < 0 {
        (-sec) as nat
    } else {
        sec as nat
    }
}

/// Seconds place of the clock decomposition of `sec`'s magnitude.
pub open spec fn clock_seconds(sec: int) -> nat {
    abs_seconds(sec) % 60
}

/// Minutes place of the clock decomposition of `sec`'s magnitude.
pub open spec fn clock_minutes(sec: int) -> nat {
    (abs_seconds(sec) / 60) % 60
}

/// Hours place of the clock decomposition of `sec`'s magnitude. Unbounded:
/// a large count simply produces a large hour number.
pub open spec fn clock_hours(sec: int) -> nat {
    abs_seconds(sec) / 3600
}

/// Recomposition of a clock decomposition into a seconds magnitude.
pub open spec fn compose_clock(h: int, m: int, s: int) -> int {
    h * 3600 + m * 60 + s
}

/// Decomposes a signed seconds count into `(seconds, minutes, hours,
/// negative)`, working on the magnitude; `negative` reflects the input's sign.
pub fn sec_to_timestamp(sec: i64) -> (r: (u64, u64, u64, bool))
    ensures
        r.0 == clock_seconds(sec as int),
        r.1 == clock_minutes(sec as int),
        r.2 == clock_hours(sec as int),
        r.3 == (sec < 0),
{
    let neg = sec < 0;
    let magnitude: u64 = if sec >= 0 {
        sec as u64
    } else {
        (-(sec as i128)) as u64
    };
    let s = magnitude % SECONDS_IN_MINUTE;
    let m_total = magnitude / SECONDS_IN_MINUTE;
    let h = m_total / MINUTES_IN_HOUR;
    let m = m_total % MINUTES_IN_HOUR;
    proof {
        lemma_div_denominator(magnitude as int, 60, 60);
    }
    (s, m, h, neg)
}

/// Recomposes a clock decomposition into the signed seconds count it came
/// from: the inverse of `sec_to_timestamp` up to the sign of zero. The bounds
/// keep the result representable as an `i64`.
pub fn from_clock(h: u64, m: u64, s: u64, negative: bool) -> (r: i64)
    requires
        negative ==> compose_clock(h as int, m as int, s as int) <= i64::MAX as int + 1,
        !negative ==> compose_clock(h as int, m as int, s as int) <= i64::MAX as int,
    ensures
        !negative ==> r == compose_clock(h as int, m as int, s as int),
        negative ==> r == -compose_clock(h as int, m as int, s as int),
{
    let total: i128 = (h as i128) * 3600 + (m as i128) * 60 + (s as i128);
    if negative {
        (-total) as i64
    } else {
        total as i64
    }
}

/// Round-trip law: recomposing the clock decomposition of any signed seconds
/// count yields its magnitude, with the sign tracked separately by
/// `sec < 0`.
pub proof fn lemma_clock_round_trip(sec: i64)
    ensures
        compose_clock(
            clock_hours(sec as int) as int,
            clock_minutes(sec as int) as int,
            clock_seconds(sec as int) as int,
        ) == abs_seconds(sec as int),
{
    let a = abs_seconds(sec as int) as int;
    if a > 0 {
        lemma_div_pos_is_pos(a, 60);
    }
    lemma_fundamental_div_mod(a, 60);
    lemma_fundamental_div_mod(a / 60, 60);
    lemma_div_denominator(a, 60, 60);
    lemma_mod_bound(a, 60);
    lemma_mod_bound(a / 60, 60);
    assert(a == (a / 3600) * 3600 + ((a / 60) % 60) * 60 + a % 60) by (nonlinear_arith)
        requires
            a / 60 == (a / 60 / 60) * 60 + (a / 60) % 60,
            a == (a / 60) * 60 + a % 60,
            a / 60 / 60 == a / 3600,
    ;
}

} // verus!
