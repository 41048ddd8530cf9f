use vstd::prelude::*;

verus! {

/// Seconds in a day.
pub const SECONDS_PER_DAY: i64 = 86400;

/// Days after the last access during which a recency bonus applies.
pub const RECENCY_WINDOW_DAYS: u64 = 30;

/// Score units in one point of score. With a base of 1, a weight of 1/10
/// per access, a bonus of at most 10 that tapers quadratically over a
/// 30-day window, and a decay of 5% a week, a score is a whole number of
/// these units.
pub const SCORE_SCALE: u64 = 900000;

/// Whole days from `last` to `now`; zero when `last` is in the future.
pub open spec fn elapsed_days(now: int, last: int) -> int {
    if now > last { (now - last) / SECONDS_PER_DAY as int } else { 0 }
}

/// What is left of a score after `weeks` weeks of decay, in percent.
pub open spec fn decay_percent(weeks: int) -> int {
    if 5 * weeks >= 100 { 0 } else { 100 - 5 * weeks }
}

/// Days left in the recency window.
pub open spec fn window_left(days: int) -> int {
    if days < RECENCY_WINDOW_DAYS { RECENCY_WINDOW_DAYS - days } else { 0 }
}

/// The score, in units, of an entry accessed `access_count` times and last
/// `days` days ago: `(1 + count/10 + 10 * (left/30)^2) * decay`.
pub open spec fn score_units(access_count: int, days: int) -> int {
    (9000 + 900 * access_count + 100 * window_left(days) * window_left(days)) * decay_percent(days / 7)
}

/// Whole days elapsed since `last_accessed`, clamped at zero (a timestamp
/// in the future counts as now).
pub fn days_since_access(now: i64, last_accessed: i64) -> (r: u64)
    ensures
        r == elapsed_days(now as int, last_accessed as int),
{
    if now > last_accessed {
        let diff: i128 = now as i128 - last_accessed as i128;
        let days: i128 = diff / (SECONDS_PER_DAY as i128);
        assert(days <= u64::MAX) by (nonlinear_arith)
            requires
                0 < diff <= u64::MAX,
                days == diff / 86400;
        days as u64
    } else {
        0
    }
}

/// The weekly decay left after `weeks` weeks without access, in percent.
pub fn decay_percent_for(weeks: u64) -> (r: u64)
    ensures
        r == decay_percent(weeks as int),
{
    if weeks >= 20 {
        0
    } else {
        100 - 5 * weeks
    }
}

/// The score, in units of `1 / SCORE_SCALE`, after an access.
pub fn recalculate_units(access_count: u32, days: u64) -> (r: u64)
    ensures
        r == score_units(access_count as int, days as int),
{
    let left: u64 = if days < RECENCY_WINDOW_DAYS { RECENCY_WINDOW_DAYS - days } else { 0 };
    let pct = decay_percent_for(days / 7);
    assert(left * left <= 900) by (nonlinear_arith)
        requires
            left <= 30;
    let sq: u64 = left * left;
    let base: u64 = 9000 + 900 * (access_count as u64) + 100 * sq;
    assert(100 * left * left == 100 * sq) by (nonlinear_arith)
        requires
            sq == left * left;
    assert(base * pct <= (9000 + 900 * 0xffff_ffffu64 + 90000) * 100) by (nonlinear_arith)
        requires
            base <= 9000 + 900 * 0xffff_ffffu64 + 90000,
            pct <= 100;
    base * pct
}

/// More accesses never lower the score, at the same elapsed time.
pub proof fn lemma_score_monotone_in_access(a: int, b: int, days: int)
    requires
        0 <= a <= b,
        0 <= days,
    ensures
        score_units(a, days) <= score_units(b, days),
{
    let left = window_left(days);
    let p = decay_percent(days / 7);
    assert(p >= 0);
    assert((9000 + 900 * a + 100 * left * left) * p <= (9000 + 900 * b + 100 * left * left) * p) by (nonlinear_arith)
        requires
            a <= b,
            p >= 0;
}

/// More elapsed time never raises the score, at the same access count.
pub proof fn lemma_score_nonincreasing_in_time(count: int, d1: int, d2: int)
    requires
        0 <= count,
        0 <= d1 <= d2,
    ensures
        score_units(count, d2) <= score_units(count, d1),
{
    let l1 = window_left(d1);
    let l2 = window_left(d2);
    let p1 = decay_percent(d1 / 7);
    let p2 = decay_percent(d2 / 7);
    assert(d1 / 7 <= d2 / 7) by (nonlinear_arith)
        requires
            0 <= d1 <= d2;
    assert(0 <= p2 <= p1);
    assert(0 <= l2 <= l1);
    assert(0 <= 100 * l2 * l2 <= 100 * l1 * l1) by (nonlinear_arith)
        requires
            0 <= l2 <= l1;
    let b1 = 9000 + 900 * count + 100 * l1 * l1;
    let b2 = 9000 + 900 * count + 100 * l2 * l2;
    assert(0 <= b2 <= b1);
    assert(b2 * p2 <= b1 * p1) by (nonlinear_arith)
        requires
            0 <= b2 <= b1,
            0 <= p2 <= p1;
}

/// An entry last used 60 days ago scores below one used today with the
/// same access count: its recency bonus has expired and it has decayed.
pub proof fn lemma_expired_bonus_scores_lower(count: int)
    requires
        0 <= count,
    ensures
        score_units(count, 60) < score_units(count, 0),
{
    assert(window_left(60) == 0);
    assert(window_left(0) == 30);
    assert(decay_percent(60int / 7) == 60);
    assert(decay_percent(0int / 7) == 100);
    assert((9000 + 900 * count) * 60 < (9000 + 900 * count + 90000) * 100) by (nonlinear_arith)
        requires
            0 <= count;
}

} // verus!
