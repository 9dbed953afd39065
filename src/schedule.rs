use vstd::prelude::*;

use crate::error::PepeDropError;

verus! {

/// Parameters of an unlock schedule, in whole percent and seconds.
///
/// `initial_percent` unlocks at creation; at the start of each elapsed
/// period of `period_secs` seconds a further `period_percent` unlocks, for at
/// most `max_periods` periods.
#[derive(Clone, Copy, Debug, PartialEq, Eq)]
pub struct VestingSchedule {
    pub initial_percent: u64,
    pub period_percent: u64,
    pub period_secs: u64,
    pub max_periods: u64,
}

/// Seconds in one day.
pub const SECONDS_PER_DAY: u64 = 86400;

impl VestingSchedule {
    /// The deployed schedule: 20% at creation, then 10% every 14 days for
    /// 8 periods.
    pub fn standard() -> (r: VestingSchedule)
        ensures
            r.well_formed(),
            r.initial_percent == 20,
            r.period_percent == 10,
            r.period_secs == 14 * SECONDS_PER_DAY,
            r.max_periods == 8,
    {
        VestingSchedule {
            initial_percent: 20,
            period_percent: 10,
            period_secs: 14 * SECONDS_PER_DAY,
            max_periods: 8,
        }
    }

    /// Periods are non-empty and the fractions add up to the whole allocation.
    pub open spec fn well_formed(self) -> bool {
        &&& self.period_secs > 0
        &&& self.initial_percent + self.max_periods * self.period_percent == 100
    }

    /// Seconds from `created_at` to `now`; a clock earlier than the creation
    /// time counts as no time at all.
    pub open spec fn elapsed(created_at: i64, now: i64) -> nat {
        if now <= created_at {
            0
        } else {
            (now - created_at) as nat
        }
    }

    /// Number of periods that count towards the unlock at `now`.
    pub open spec fn counted_periods(self, created_at: i64, now: i64) -> nat {
        let whole = Self::elapsed(created_at, now) / (self.period_secs as nat);
        if whole < self.max_periods {
            whole
        } else {
            self.max_periods as nat
        }
    }

    /// Cumulative amount of `total` unlocked at `now`: each product is
    /// rounded down on its own.
    pub open spec fn unlocked(self, total: u64, created_at: i64, now: i64) -> int {
        (total * self.initial_percent) / 100
            + (total * self.period_percent * self.counted_periods(created_at, now)) / 100
    }

    /// Some product of the computation does not fit in 64 bits.
    pub open spec fn overflows(self, total: u64, created_at: i64, now: i64) -> bool {
        ||| total * self.initial_percent > u64::MAX
        ||| total * self.period_percent > u64::MAX
        ||| total * self.period_percent * self.counted_periods(created_at, now) > u64::MAX
    }
}

/// Cumulative amount of an allocation of `total_tokens`, made at
/// `created_at`, that is unlocked at `now`.
pub fn calculate_available_tokens(
    schedule: &VestingSchedule,
    total_tokens: u64,
    created_at: i64,
    now: i64,
) -> (r: Result<u64, PepeDropError>)
    requires
        schedule.well_formed(),
    ensures
        schedule.overflows(total_tokens, created_at, now) <==> r is Err,
        r is Err ==> r == Err::<u64, PepeDropError>(PepeDropError::ArithmeticError),
        r is Ok ==> r->Ok_0 == schedule.unlocked(total_tokens, created_at, now),
{
    let elapsed: u64 = if now <= created_at {
        0
    } else {
        (now as i128 - created_at as i128) as u64
    };
    let whole: u64 = elapsed / schedule.period_secs;
    let periods: u64 = if whole < schedule.max_periods {
        whole
    } else {
        schedule.max_periods
    };
    let initial = match total_tokens.checked_mul(schedule.initial_percent) {
        Some(v) => v / 100,
        None => return Err(PepeDropError::ArithmeticError),
    };
    let per_period = match total_tokens.checked_mul(schedule.period_percent) {
        Some(v) => v,
        None => return Err(PepeDropError::ArithmeticError),
    };
    let additional = match per_period.checked_mul(periods) {
        Some(v) => v / 100,
        None => return Err(PepeDropError::ArithmeticError),
    };
    proof {
        lemma_unlocked_at_most_total(*schedule, total_tokens, created_at, now);
    }
    Ok(initial + additional)
}

/// What is unlocked never exceeds the allocation.
pub proof fn lemma_unlocked_at_most_total(s: VestingSchedule, total: u64, created_at: i64, now: i64)
    requires
        s.well_formed(),
    ensures
        0 <= s.unlocked(total, created_at, now) <= total,
{
    let m = s.counted_periods(created_at, now);
    let a = total * s.initial_percent;
    let b = total * s.period_percent * m;
    assert(m <= s.max_periods);
    assert(0 <= a && 0 <= b) by (nonlinear_arith)
        requires
            total >= 0,
            s.initial_percent >= 0,
            s.period_percent >= 0,
            m >= 0,
            a == total * s.initial_percent,
            b == total * s.period_percent * m,
    ;
    assert(a + b <= 100 * total) by (nonlinear_arith)
        requires
            a == total * s.initial_percent,
            b == total * s.period_percent * m,
            m <= s.max_periods,
            total >= 0,
            s.period_percent >= 0,
            s.initial_percent + s.max_periods * s.period_percent == 100,
    ;
    assert(a / 100 + b / 100 <= (a + b) / 100) by (nonlinear_arith)
        requires
            a >= 0,
            b >= 0,
    ;
}

/// The unlocked amount never decreases as time goes on.
pub proof fn lemma_unlocked_monotone(
    s: VestingSchedule,
    total: u64,
    created_at: i64,
    earlier: i64,
    later: i64,
)
    requires
        s.well_formed(),
        earlier <= later,
    ensures
        s.unlocked(total, created_at, earlier) <= s.unlocked(total, created_at, later),
{
    let p = s.period_secs as int;
    let e1 = VestingSchedule::elapsed(created_at, earlier) as int;
    let e2 = VestingSchedule::elapsed(created_at, later) as int;
    assert(e1 <= e2);
    vstd::arithmetic::div_mod::lemma_div_is_ordered(e1, e2, p);
    let m1 = s.counted_periods(created_at, earlier) as int;
    let m2 = s.counted_periods(created_at, later) as int;
    assert(m1 <= m2);
    let c = total * s.period_percent;
    assert(c * m1 <= c * m2 && c >= 0) by (nonlinear_arith)
        requires
            m1 <= m2,
            c == total * s.period_percent,
            total >= 0,
            s.period_percent >= 0,
    ;
    vstd::arithmetic::div_mod::lemma_div_is_ordered(c * m1, c * m2, 100);
}

/// At the moment of creation exactly the initial fraction is unlocked.
pub proof fn lemma_unlocked_at_creation(s: VestingSchedule, total: u64, created_at: i64)
    requires
        s.well_formed(),
    ensures
        s.unlocked(total, created_at, created_at) == (total * s.initial_percent) / 100,
{
    assert(s.counted_periods(created_at, created_at) == 0) by {
        vstd::arithmetic::div_mod::lemma_basic_div(0, s.period_secs as int);
    }
}

/// Once every period has elapsed the whole allocation is unlocked, provided
/// the initial fraction of it is a whole number of tokens.
pub proof fn lemma_unlocked_when_fully_vested(
    s: VestingSchedule,
    total: u64,
    created_at: i64,
    now: i64,
)
    requires
        s.well_formed(),
        now >= created_at + s.max_periods * s.period_secs,
        (total * s.initial_percent) % 100 == 0,
    ensures
        s.unlocked(total, created_at, now) == total,
{
    let p = s.period_secs as int;
    let k = s.max_periods as int;
    let e = VestingSchedule::elapsed(created_at, now) as int;
    assert(e >= k * p) by (nonlinear_arith)
        requires
            e == (if now <= created_at { 0 } else { now - created_at }),
            now >= created_at + k * p,
            k >= 0,
            p > 0,
    ;
    assert(e / p >= k) by {
        vstd::arithmetic::div_mod::lemma_div_is_ordered(k * p, e, p);
        vstd::arithmetic::div_mod::lemma_div_multiples_vanish(k, p);
        vstd::arithmetic::mul::lemma_mul_is_commutative(k, p);
    }
    assert(s.counted_periods(created_at, now) == s.max_periods);
    let a = total * s.initial_percent;
    let b = total * s.period_percent * s.max_periods;
    assert(a + b == 100 * total) by (nonlinear_arith)
        requires
            a == total * s.initial_percent,
            b == total * s.period_percent * s.max_periods,
            s.initial_percent + s.max_periods * s.period_percent == 100,
    ;
    assert(a / 100 + b / 100 == total) by (nonlinear_arith)
        requires
            a % 100 == 0,
            a + b == 100 * total,
            a >= 0,
    ;
}

} // verus!
