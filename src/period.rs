//! Decomposition of an elapsed magnitude into calendar-like periods.
//!
//! Months and years have fixed lengths here (30 and 365 days): nothing in
//! this module knows about calendars.
use vstd::prelude::*;

verus! {

pub const SECS_PER_MINUTE: u128 = 60;
pub const SECS_PER_HOUR: u128 = 3600;
pub const SECS_PER_DAY: u128 = 86400;
pub const SECS_PER_WEEK: u128 = 604800;
pub const SECS_PER_MONTH: u128 = 2592000;
pub const SECS_PER_YEAR: u128 = 31536000;

pub const NANOS_PER_MICRO: u128 = 1000;
pub const NANOS_PER_MILLI: u128 = 1000000;
pub const NANOS_PER_SEC: u128 = 1000000000;

/// Number of unit tiers of the precise decomposition.
pub const UNIT_COUNT: usize = 10;

/// One component of a decomposed duration: a count of one unit.
#[derive(Clone, Copy, Debug, PartialEq, Eq, Structural)]
pub enum TimePeriod {
    Now,
    Nanos(u64),
    Micros(u64),
    Millis(u64),
    Seconds(u64),
    Minutes(u64),
    Hours(u64),
    Days(u64),
    Weeks(u64),
    Months(u64),
    Years(u64),
    Eternity,
}

pub open spec fn max2(a: int, b: int) -> int {
    if a >= b { a } else { b }
}

/// The single period that a rough rendering shows for `n` whole seconds.
pub open spec fn rough_period_of(n: int) -> TimePeriod {
    if n > 547 * SECS_PER_DAY {
        let years = n / (SECS_PER_YEAR as int);
        if years > u64::MAX { TimePeriod::Eternity } else { TimePeriod::Years(max2(years, 2) as u64) }
    } else if n > 345 * SECS_PER_DAY {
        TimePeriod::Years(1)
    } else if n > 45 * SECS_PER_DAY {
        TimePeriod::Months(max2(n / (SECS_PER_MONTH as int), 2) as u64)
    } else if n > 29 * SECS_PER_DAY {
        TimePeriod::Months(1)
    } else if n > 10 * SECS_PER_DAY + 12 * SECS_PER_HOUR {
        TimePeriod::Weeks(max2(n / (SECS_PER_WEEK as int), 2) as u64)
    } else if n > 6 * SECS_PER_DAY + 12 * SECS_PER_HOUR {
        TimePeriod::Weeks(1)
    } else if n > 36 * SECS_PER_HOUR {
        TimePeriod::Days(max2(n / (SECS_PER_DAY as int), 2) as u64)
    } else if n > 22 * SECS_PER_HOUR {
        TimePeriod::Days(1)
    } else if n > 90 * SECS_PER_MINUTE {
        TimePeriod::Hours(max2(n / (SECS_PER_HOUR as int), 2) as u64)
    } else if n > 45 * SECS_PER_MINUTE {
        TimePeriod::Hours(1)
    } else if n > 90 {
        TimePeriod::Minutes(max2(n / (SECS_PER_MINUTE as int), 2) as u64)
    } else if n > 45 {
        TimePeriod::Minutes(1)
    } else if n > 10 {
        TimePeriod::Seconds(n as u64)
    } else {
        TimePeriod::Now
    }
}

/// Length in nanoseconds of the unit of tier `i`, largest (years) first.
pub open spec fn unit_nanos(i: nat) -> nat {
    if i == 0 {
        (SECS_PER_YEAR * NANOS_PER_SEC) as nat
    } else if i == 1 {
        (SECS_PER_MONTH * NANOS_PER_SEC) as nat
    } else if i == 2 {
        (SECS_PER_WEEK * NANOS_PER_SEC) as nat
    } else if i == 3 {
        (SECS_PER_DAY * NANOS_PER_SEC) as nat
    } else if i == 4 {
        (SECS_PER_HOUR * NANOS_PER_SEC) as nat
    } else if i == 5 {
        (SECS_PER_MINUTE * NANOS_PER_SEC) as nat
    } else if i == 6 {
        NANOS_PER_SEC as nat
    } else if i == 7 {
        NANOS_PER_MILLI as nat
    } else if i == 8 {
        NANOS_PER_MICRO as nat
    } else {
        1
    }
}

/// The period of tier `i` holding `count` units.
pub open spec fn period_of_tier(i: nat, count: u64) -> TimePeriod {
    if i == 0 {
        TimePeriod::Years(count)
    } else if i == 1 {
        TimePeriod::Months(count)
    } else if i == 2 {
        TimePeriod::Weeks(count)
    } else if i == 3 {
        TimePeriod::Days(count)
    } else if i == 4 {
        TimePeriod::Hours(count)
    } else if i == 5 {
        TimePeriod::Minutes(count)
    } else if i == 6 {
        TimePeriod::Seconds(count)
    } else if i == 7 {
        TimePeriod::Millis(count)
    } else if i == 8 {
        TimePeriod::Micros(count)
    } else {
        TimePeriod::Nanos(count)
    }
}

/// Mixed-radix split of `m` nanoseconds over the tiers from `i` down:
/// each nonzero whole count, then the remainder goes to the next tier.
pub open spec fn split_from(m: nat, i: nat) -> Seq<TimePeriod>
    decreases UNIT_COUNT - i,
{
    if i >= UNIT_COUNT {
        Seq::empty()
    } else {
        let whole = m / unit_nanos(i);
        let rest = split_from(m % unit_nanos(i), i + 1);
        if whole > 0 {
            seq![period_of_tier(i, whole as u64)] + rest
        } else {
            rest
        }
    }
}

/// The precise decomposition of a magnitude of `m` nanoseconds.
pub open spec fn precise_periods_of(m: nat) -> Seq<TimePeriod> {
    if m / unit_nanos(0) > u64::MAX {
        seq![TimePeriod::Eternity]
    } else if split_from(m, 0).len() == 0 {
        seq![TimePeriod::Seconds(0)]
    } else {
        split_from(m, 0)
    }
}

/// The count a period holds (none for the sentinels).
pub open spec fn period_count(p: TimePeriod) -> nat {
    match p {
        TimePeriod::Nanos(n) => n as nat,
        TimePeriod::Micros(n) => n as nat,
        TimePeriod::Millis(n) => n as nat,
        TimePeriod::Seconds(n) => n as nat,
        TimePeriod::Minutes(n) => n as nat,
        TimePeriod::Hours(n) => n as nat,
        TimePeriod::Days(n) => n as nat,
        TimePeriod::Weeks(n) => n as nat,
        TimePeriod::Months(n) => n as nat,
        TimePeriod::Years(n) => n as nat,
        _ => 0,
    }
}

/// The tier of a period's unit (0 for years, 9 for nanoseconds); the
/// sentinels stand outside the tiers.
pub open spec fn period_tier(p: TimePeriod) -> int {
    match p {
        TimePeriod::Eternity => -1,
        TimePeriod::Years(_) => 0,
        TimePeriod::Months(_) => 1,
        TimePeriod::Weeks(_) => 2,
        TimePeriod::Days(_) => 3,
        TimePeriod::Hours(_) => 4,
        TimePeriod::Minutes(_) => 5,
        TimePeriod::Seconds(_) => 6,
        TimePeriod::Millis(_) => 7,
        TimePeriod::Micros(_) => 8,
        TimePeriod::Nanos(_) => 9,
        TimePeriod::Now => 10,
    }
}

/// The nanoseconds that a sequence of periods adds up to.
pub open spec fn total_nanos(s: Seq<TimePeriod>) -> int
    decreases s.len(),
{
    if s.len() == 0 {
        0
    } else {
        let p = s[0];
        period_count(p) * unit_nanos(period_tier(p) as nat) + total_nanos(s.drop_first())
    }
}

fn unit_nanos_at(i: usize) -> (r: u128)
    requires
        i < UNIT_COUNT,
    ensures
        r == unit_nanos(i as nat),
        r > 0,
{
    if i == 0 {
        SECS_PER_YEAR * NANOS_PER_SEC
    } else if i == 1 {
        SECS_PER_MONTH * NANOS_PER_SEC
    } else if i == 2 {
        SECS_PER_WEEK * NANOS_PER_SEC
    } else if i == 3 {
        SECS_PER_DAY * NANOS_PER_SEC
    } else if i == 4 {
        SECS_PER_HOUR * NANOS_PER_SEC
    } else if i == 5 {
        SECS_PER_MINUTE * NANOS_PER_SEC
    } else if i == 6 {
        NANOS_PER_SEC
    } else if i == 7 {
        NANOS_PER_MILLI
    } else if i == 8 {
        NANOS_PER_MICRO
    } else {
        1
    }
}

fn period_at(i: usize, count: u64) -> (r: TimePeriod)
    requires
        i < UNIT_COUNT,
    ensures
        r == period_of_tier(i as nat, count),
{
    if i == 0 {
        TimePeriod::Years(count)
    } else if i == 1 {
        TimePeriod::Months(count)
    } else if i == 2 {
        TimePeriod::Weeks(count)
    } else if i == 3 {
        TimePeriod::Days(count)
    } else if i == 4 {
        TimePeriod::Hours(count)
    } else if i == 5 {
        TimePeriod::Minutes(count)
    } else if i == 6 {
        TimePeriod::Seconds(count)
    } else if i == 7 {
        TimePeriod::Millis(count)
    } else if i == 8 {
        TimePeriod::Micros(count)
    } else {
        TimePeriod::Nanos(count)
    }
}

/// Picks the single period of a rough rendering of `n` whole seconds.
pub fn rough_period_for(n: u128) -> (r: TimePeriod)
    ensures
        r == rough_period_of(n as int),
{
    if n > 547 * SECS_PER_DAY {
        let years = n / SECS_PER_YEAR;
        if years > u64::MAX as u128 {
            TimePeriod::Eternity
        } else if years < 2 {
            TimePeriod::Years(2)
        } else {
            TimePeriod::Years(years as u64)
        }
    } else if n > 345 * SECS_PER_DAY {
        TimePeriod::Years(1)
    } else if n > 45 * SECS_PER_DAY {
        TimePeriod::Months(at_least_two(n / SECS_PER_MONTH))
    } else if n > 29 * SECS_PER_DAY {
        TimePeriod::Months(1)
    } else if n > 10 * SECS_PER_DAY + 12 * SECS_PER_HOUR {
        TimePeriod::Weeks(at_least_two(n / SECS_PER_WEEK))
    } else if n > 6 * SECS_PER_DAY + 12 * SECS_PER_HOUR {
        TimePeriod::Weeks(1)
    } else if n > 36 * SECS_PER_HOUR {
        TimePeriod::Days(at_least_two(n / SECS_PER_DAY))
    } else if n > 22 * SECS_PER_HOUR {
        TimePeriod::Days(1)
    } else if n > 90 * SECS_PER_MINUTE {
        TimePeriod::Hours(at_least_two(n / SECS_PER_HOUR))
    } else if n > 45 * SECS_PER_MINUTE {
        TimePeriod::Hours(1)
    } else if n > 90 {
        TimePeriod::Minutes(at_least_two(n / SECS_PER_MINUTE))
    } else if n > 45 {
        TimePeriod::Minutes(1)
    } else if n > 10 {
        TimePeriod::Seconds(n as u64)
    } else {
        TimePeriod::Now
    }
}

fn at_least_two(count: u128) -> (r: u64)
    requires
        count <= u64::MAX,
    ensures
        r == max2(count as int, 2),
{
    if count < 2 {
        2
    } else {
        count as u64
    }
}

/// Splits a magnitude of `m` nanoseconds into its precise, mixed-radix
/// sequence of periods, largest unit first.
pub fn precise_periods_for(m: u128) -> (r: Vec<TimePeriod>)
    ensures
        r@ == precise_periods_of(m as nat),
{
    if m / unit_nanos_at(0) > u64::MAX as u128 {
        return vec![TimePeriod::Eternity];
    }
    let mut periods: Vec<TimePeriod> = Vec::new();
    let mut rem: u128 = m;
    let mut i: usize = 0;
    while i < UNIT_COUNT
        invariant
            i <= UNIT_COUNT,
            periods@ + split_from(rem as nat, i as nat) == split_from(m as nat, 0),
            i == 0 ==> rem == m,
            i > 0 ==> rem < unit_nanos((i - 1) as nat),
            (m as nat) / unit_nanos(0) <= u64::MAX,
        decreases UNIT_COUNT - i,
    {
        let unit = unit_nanos_at(i);
        let whole = rem / unit;
        assert(whole <= rem) by (nonlinear_arith)
            requires
                unit > 0,
                whole == rem / unit,
        ;
        assert(whole <= u64::MAX);
        let ghost before = periods@;
        let ghost rest = split_from((rem % unit) as nat, (i + 1) as nat);
        if whole > 0 {
            periods.push(period_at(i, whole as u64));
            assert(before + split_from(rem as nat, i as nat) =~= periods@ + rest);
        } else {
            assert(before + split_from(rem as nat, i as nat) =~= periods@ + rest);
        }
        rem = rem % unit;
        i = i + 1;
    }
    assert(periods@ =~= periods@ + split_from(rem as nat, i as nat));
    if periods.len() == 0 {
        periods.push(TimePeriod::Seconds(0));
    }
    periods
}

} // verus!
