//! Laws that relate the decomposition, the texts and the tenses.
use vstd::prelude::*;

use crate::humantime::{
    body_text, magnitude, periods_of, tense_of, text_en, whole_seconds, Accuracy,
};
use crate::period::{
    period_count, period_of_tier, period_tier, precise_periods_of, rough_period_of, split_from,
    total_nanos, unit_nanos, TimePeriod, NANOS_PER_SEC, SECS_PER_YEAR, UNIT_COUNT,
};
use crate::text::{comma_list, join_texts, period_text, period_texts};

verus! {

/// A rough rendering of a span of at most ten whole seconds, either way,
/// reads "now" in the tense that the span itself gives.
pub proof fn lemma_rough_now_band(n: int)
    requires
        whole_seconds(n) <= 10,
    ensures
        text_en(n, Accuracy::Rough, tense_of(n, Accuracy::Rough)) == "now"@,
{
    let texts = period_texts(periods_of(n, Accuracy::Rough), Accuracy::Rough);
    assert(periods_of(n, Accuracy::Rough) == seq![TimePeriod::Now]);
    assert(texts.len() == 1);
    assert(texts[0] == period_text(TimePeriod::Now, Accuracy::Rough));
}

/// Outside the present band, a span and its negation read with the same
/// text: "in …" for the one that lies ahead, "… ago" for the one behind.
pub proof fn lemma_tense_mirrors_sign(n: int, accuracy: Accuracy)
    requires
        n > 0,
        accuracy == Accuracy::Rough ==> whole_seconds(n) > 10,
    ensures
        body_text(-n, accuracy) == body_text(n, accuracy),
        text_en(n, accuracy, tense_of(n, accuracy)) == "in "@ + body_text(n, accuracy),
        text_en(-n, accuracy, tense_of(-n, accuracy)) == body_text(n, accuracy) + " ago"@,
{
    assert(magnitude(-n) == magnitude(n));
    assert(whole_seconds(-n) == whole_seconds(n));
    assert(periods_of(-n, accuracy) == periods_of(n, accuracy));
}

proof fn lemma_comma_list_rest(texts: Seq<Seq<char>>, k: nat)
    requires
        2 <= k <= texts.len(),
    ensures
        comma_list(texts, k) == texts[0] + ", "@ + comma_list(texts.drop_first(), (k - 1) as nat),
    decreases k,
{
    let rest = texts.drop_first();
    if k == 2 {
        assert(comma_list(texts, 1) == texts[0]);
        assert(comma_list(rest, 1) == rest[0]);
        assert(rest[0] == texts[1]);
    } else {
        lemma_comma_list_rest(texts, (k - 1) as nat);
        assert(rest[(k - 2) as int] == texts[k - 1]);
        assert(comma_list(rest, (k - 1) as nat) == comma_list(rest, (k - 2) as nat) + ", "@ + rest[(k - 2) as int]);
        assert(texts[0] + ", "@ + comma_list(rest, (k - 1) as nat) =~= (texts[0] + ", "@ + comma_list(rest, (k - 2) as nat)) + ", "@ + texts[k - 1]);
    }
}

/// The English list of texts: one text stands alone; two are joined by
/// " and "; a longer list puts ", " after its first text and goes on as
/// the list of the others, so that only the last pair meets at " and ".
pub proof fn lemma_join_shape(texts: Seq<Seq<char>>)
    requires
        texts.len() >= 1,
    ensures
        texts.len() == 1 ==> join_texts(texts) == texts[0],
        texts.len() == 2 ==> join_texts(texts) == texts[0] + " and "@ + texts[1],
        texts.len() > 2 ==> join_texts(texts) == texts[0] + ", "@ + join_texts(texts.drop_first()),
{
    if texts.len() > 2 {
        let rest = texts.drop_first();
        lemma_comma_list_rest(texts, (texts.len() - 1) as nat);
        assert(rest.last() == texts.last());
        assert(join_texts(texts) =~= texts[0] + ", "@ + join_texts(rest));
    }
}

proof fn lemma_total_prepend(p: TimePeriod, rest: Seq<TimePeriod>)
    ensures
        total_nanos(seq![p] + rest) == period_count(p) * unit_nanos(period_tier(p) as nat)
            + total_nanos(rest),
{
    assert((seq![p] + rest).drop_first() =~= rest);
}

proof fn lemma_split_total(m: nat, i: nat)
    requires
        i <= UNIT_COUNT,
        i == 0 ==> m / unit_nanos(0) <= u64::MAX,
        i > 0 ==> m < unit_nanos((i - 1) as nat),
    ensures
        total_nanos(split_from(m, i)) == m,
    decreases UNIT_COUNT - i,
{
    if i < UNIT_COUNT {
        let u = unit_nanos(i);
        let whole = m / u;
        let r = m % u;
        assert(m == whole * u + r) by (nonlinear_arith)
            requires
                u > 0,
                whole == m / u,
                r == m % u,
        ;
        assert(r < u) by (nonlinear_arith)
            requires
                u > 0,
                r == m % u,
        ;
        assert(whole <= m) by (nonlinear_arith)
            requires
                u > 0,
                whole == m / u,
        ;
        lemma_split_total(r, i + 1);
        let rest = split_from(r, i + 1);
        if whole > 0 {
            let p = period_of_tier(i, whole as u64);
            assert(period_count(p) == whole);
            assert(period_tier(p) == i);
            lemma_total_prepend(p, rest);
            assert(split_from(m, i) == seq![p] + rest);
            assert(total_nanos(split_from(m, i)) == whole * u + r);
        } else {
            assert(whole * u == 0) by (nonlinear_arith)
                requires
                    whole == 0,
            ;
            assert(split_from(m, i) == rest);
        }
    } else {
        assert(unit_nanos((i - 1) as nat) == 1);
    }
}

/// The precise breakdown adds up: the counts times the lengths of their
/// units give back the whole magnitude, down to the nanosecond. Spans too
/// long to count in years are left out (they read "eternity").
pub proof fn lemma_precise_adds_up(m: nat)
    requires
        m / unit_nanos(0) <= u64::MAX,
    ensures
        total_nanos(precise_periods_of(m)) == m,
{
    lemma_split_total(m, 0);
    if split_from(m, 0).len() == 0 {
        let zero = TimePeriod::Seconds(0);
        let c = period_count(zero);
        let u = unit_nanos(period_tier(zero) as nat);
        assert(c * u == 0) by (nonlinear_arith)
            requires
                c == 0,
        ;
        lemma_total_prepend(zero, Seq::empty());
        assert(seq![zero] =~= seq![zero] + Seq::<TimePeriod>::empty());
        assert(total_nanos(Seq::<TimePeriod>::empty()) == 0);
    }
}

proof fn lemma_units_decrease(i: nat, j: nat)
    requires
        i < j < UNIT_COUNT,
    ensures
        unit_nanos(j) < unit_nanos(i),
{
}

proof fn lemma_skip_tiers(m: nat, j: nat, i: nat)
    requires
        j <= i < UNIT_COUNT,
        i > 0 ==> m < unit_nanos((i - 1) as nat),
    ensures
        split_from(m, j) == split_from(m, i),
    decreases i - j,
{
    if j < i {
        if j < i - 1 {
            lemma_units_decrease(j, (i - 1) as nat);
        }
        let u = unit_nanos(j);
        assert(m / u == 0 && m % u == m) by (nonlinear_arith)
            requires
                m < u,
        ;
        lemma_skip_tiers(m, j + 1, i);
    }
}

proof fn lemma_head_tier(m: nat, i: nat)
    requires
        i < UNIT_COUNT,
        unit_nanos(i) <= m,
        i > 0 ==> m < unit_nanos((i - 1) as nat),
        m / unit_nanos(0) <= u64::MAX,
    ensures
        period_tier(precise_periods_of(m)[0]) == i,
{
    lemma_skip_tiers(m, 0, i);
    let u = unit_nanos(i);
    let whole = m / u;
    assert(whole >= 1) by (nonlinear_arith)
        requires
            u > 0,
            m >= u,
            whole == m / u,
    ;
    assert(whole <= m) by (nonlinear_arith)
        requires
            u > 0,
            whole == m / u,
    ;
    if i > 1 {
        lemma_units_decrease(0, (i - 1) as nat);
    }
    let head = period_of_tier(i, whole as u64);
    assert(split_from(m, i)[0] == head);
}

/// A rough rendering shows a single period. Past the "now" band its unit
/// is the largest unit of the precise breakdown, or the next larger one
/// where the rough rendering rounds up (46 minutes read "an hour").
/// Spans too long to count in years are left out.
pub proof fn lemma_rough_one_step_coarser(n: int)
    requires
        whole_seconds(n) > 10,
        magnitude(n) / unit_nanos(0) <= u64::MAX,
    ensures
        periods_of(n, Accuracy::Rough).len() == 1,
        period_tier(periods_of(n, Accuracy::Rough)[0]) == period_tier(
            periods_of(n, Accuracy::Precise)[0],
        ) || period_tier(periods_of(n, Accuracy::Rough)[0]) == period_tier(
            periods_of(n, Accuracy::Precise)[0],
        ) - 1,
{
    let m = magnitude(n);
    let s = whole_seconds(n);
    let ns = NANOS_PER_SEC as nat;
    assert(s * ns <= m < s * ns + ns) by (nonlinear_arith)
        requires
            s == m / ns,
            ns > 0,
    ;
    let year = SECS_PER_YEAR as nat;
    let year_nanos = unit_nanos(0);
    assert(year_nanos == year * ns);
    assert(s / year <= m / year_nanos) by (nonlinear_arith)
        requires
            s * ns <= m,
            year_nanos == year * ns,
            year > 0,
            ns > 0,
    ;
    let rough = rough_period_of(s as int);
    let r = period_tier(rough);
    assert(0 <= r <= 6);
    assert(unit_nanos((r + 1) as nat) <= m);
    assert(r > 0 ==> m < unit_nanos((r - 1) as nat));
    if m >= unit_nanos(r as nat) {
        lemma_head_tier(m, r as nat);
    } else {
        lemma_head_tier(m, (r + 1) as nat);
    }
}

/// A span of `secs` whole seconds and a sub-second part of the same sign
/// (as a chrono delta has) has exactly `|secs|` whole seconds, and the sign
/// of `secs` where that is not zero.
pub proof fn lemma_whole_seconds_of_parts(secs: int, subsec: int)
    requires
        -1_000_000_000 < subsec < 1_000_000_000,
        secs > 0 ==> subsec >= 0,
        secs < 0 ==> subsec <= 0,
    ensures
        whole_seconds(secs * (NANOS_PER_SEC as int) + subsec) == magnitude(secs),
        secs > 0 ==> secs * (NANOS_PER_SEC as int) + subsec > 0,
        secs < 0 ==> secs * (NANOS_PER_SEC as int) + subsec < 0,
{
    let ns = NANOS_PER_SEC as int;
    let n = secs * ns + subsec;
    let m = magnitude(n) as int;
    let a = magnitude(secs) as int;
    let f = magnitude(subsec) as int;
    assert(m == a * ns + f) by (nonlinear_arith)
        requires
            n == secs * ns + subsec,
            ns == 1_000_000_000,
            m == (if n < 0 { -n } else { n }),
            a == (if secs < 0 { -secs } else { secs }),
            f == (if subsec < 0 { -subsec } else { subsec }),
            -1_000_000_000 < subsec < 1_000_000_000,
            secs > 0 ==> subsec >= 0,
            secs < 0 ==> subsec <= 0,
    ;
    assert(m / ns == a) by (nonlinear_arith)
        requires
            m == a * ns + f,
            0 <= f < ns,
            a >= 0,
    ;
}

} // verus!
