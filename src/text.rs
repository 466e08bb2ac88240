//! English text for periods, lists of periods and tenses.
use vstd::prelude::*;
use vstd::string::*;

use crate::humantime::{Accuracy, Tense};
use crate::period::TimePeriod;

verus! {

/// The text of one decimal digit.
pub open spec fn digit_text(d: nat) -> Seq<char> {
    if d == 0 {
        "0"@
    } else if d == 1 {
        "1"@
    } else if d == 2 {
        "2"@
    } else if d == 3 {
        "3"@
    } else if d == 4 {
        "4"@
    } else if d == 5 {
        "5"@
    } else if d == 6 {
        "6"@
    } else if d == 7 {
        "7"@
    } else if d == 8 {
        "8"@
    } else {
        "9"@
    }
}

/// Decimal notation of `n`, without leading zeros.
pub open spec fn decimal(n: nat) -> Seq<char>
    decreases n,
{
    if n < 10 {
        digit_text(n)
    } else {
        decimal(n / 10) + digit_text(n % 10)
    }
}

/// "`n` `unit`s".
pub open spec fn plural(n: nat, unit: Seq<char>) -> Seq<char> {
    decimal(n) + " "@ + unit + "s"@
}

/// "1 `unit`" for one, else "`n` `unit`s".
pub open spec fn counted(n: nat, unit: Seq<char>) -> Seq<char> {
    if n == 1 {
        decimal(n) + " "@ + unit
    } else {
        plural(n, unit)
    }
}

/// A count with an abbreviated unit, which has no plural.
pub open spec fn abbreviated(n: nat, unit: Seq<char>) -> Seq<char> {
    decimal(n) + unit
}

/// Text of a period in a precise rendering.
pub open spec fn precise_text(p: TimePeriod) -> Seq<char> {
    match p {
        TimePeriod::Now => "now"@,
        TimePeriod::Nanos(n) => abbreviated(n as nat, " ns"@),
        TimePeriod::Micros(n) => abbreviated(n as nat, " µs"@),
        TimePeriod::Millis(n) => abbreviated(n as nat, " ms"@),
        TimePeriod::Seconds(n) => counted(n as nat, "second"@),
        TimePeriod::Minutes(n) => counted(n as nat, "minute"@),
        TimePeriod::Hours(n) => counted(n as nat, "hour"@),
        TimePeriod::Days(n) => counted(n as nat, "day"@),
        TimePeriod::Weeks(n) => counted(n as nat, "week"@),
        TimePeriod::Months(n) => counted(n as nat, "month"@),
        TimePeriod::Years(n) => counted(n as nat, "year"@),
        TimePeriod::Eternity => "eternity"@,
    }
}

/// Text of a period in a rough rendering: one unit reads with an article.
pub open spec fn rough_text(p: TimePeriod) -> Seq<char> {
    match p {
        TimePeriod::Now => "now"@,
        TimePeriod::Nanos(n) => abbreviated(n as nat, " ns"@),
        TimePeriod::Micros(n) => abbreviated(n as nat, " µs"@),
        TimePeriod::Millis(n) => abbreviated(n as nat, " ms"@),
        TimePeriod::Seconds(n) => plural(n as nat, "second"@),
        TimePeriod::Minutes(n) => if n == 1 { "a minute"@ } else { plural(n as nat, "minute"@) },
        TimePeriod::Hours(n) => if n == 1 { "an hour"@ } else { plural(n as nat, "hour"@) },
        TimePeriod::Days(n) => if n == 1 { "a day"@ } else { plural(n as nat, "day"@) },
        TimePeriod::Weeks(n) => if n == 1 { "a week"@ } else { plural(n as nat, "week"@) },
        TimePeriod::Months(n) => if n == 1 { "a month"@ } else { plural(n as nat, "month"@) },
        TimePeriod::Years(n) => if n == 1 { "a year"@ } else { plural(n as nat, "year"@) },
        TimePeriod::Eternity => "eternity"@,
    }
}

pub open spec fn period_text(p: TimePeriod, accuracy: Accuracy) -> Seq<char> {
    match accuracy {
        Accuracy::Rough => rough_text(p),
        Accuracy::Precise => precise_text(p),
    }
}

/// The texts of a sequence of periods.
pub open spec fn period_texts(periods: Seq<TimePeriod>, accuracy: Accuracy) -> Seq<Seq<char>> {
    periods.map_values(|p: TimePeriod| period_text(p, accuracy))
}

/// The first `k` texts separated by ", ".
pub open spec fn comma_list(texts: Seq<Seq<char>>, k: nat) -> Seq<char>
    decreases k,
{
    if k <= 1 {
        texts[0]
    } else {
        comma_list(texts, (k - 1) as nat) + ", "@ + texts[k - 1]
    }
}

/// The texts as an English list: "a", "a and b", "a, b and c", ...
pub open spec fn join_texts(texts: Seq<Seq<char>>) -> Seq<char> {
    if texts.len() <= 1 {
        texts[0]
    } else {
        comma_list(texts, (texts.len() - 1) as nat) + " and "@ + texts.last()
    }
}

/// A phrase framed in a tense: "… ago", "in …", or as it is.
pub open spec fn with_tense(text: Seq<char>, tense: Tense) -> Seq<char> {
    match tense {
        Tense::Past => text + " ago"@,
        Tense::Future => "in "@ + text,
        Tense::Present => text,
    }
}

fn digit_str(d: u64) -> (r: &'static str)
    requires
        d < 10,
    ensures
        r@ == digit_text(d as nat),
{
    if d == 0 {
        "0"
    } else if d == 1 {
        "1"
    } else if d == 2 {
        "2"
    } else if d == 3 {
        "3"
    } else if d == 4 {
        "4"
    } else if d == 5 {
        "5"
    } else if d == 6 {
        "6"
    } else if d == 7 {
        "7"
    } else if d == 8 {
        "8"
    } else {
        "9"
    }
}

/// Writes `n` in decimal.
pub fn decimal_text(n: u64) -> (r: String)
    ensures
        r@ == decimal(n as nat),
    decreases n,
{
    if n < 10 {
        String::from_str(digit_str(n))
    } else {
        let mut s = decimal_text(n / 10);
        s.append(digit_str(n % 10));
        s
    }
}

fn plural_text(n: u64, unit: &str) -> (r: String)
    ensures
        r@ == plural(n as nat, unit@),
{
    let mut s = decimal_text(n);
    s.append(" ");
    s.append(unit);
    s.append("s");
    s
}

fn counted_text(n: u64, unit: &str) -> (r: String)
    ensures
        r@ == counted(n as nat, unit@),
{
    if n == 1 {
        let mut s = decimal_text(n);
        s.append(" ");
        s.append(unit);
        s
    } else {
        plural_text(n, unit)
    }
}

fn abbreviated_text(n: u64, unit: &str) -> (r: String)
    ensures
        r@ == abbreviated(n as nat, unit@),
{
    let mut s = decimal_text(n);
    s.append(unit);
    s
}

fn rough_unit_text(n: u64, single: &str, unit: &str) -> (r: String)
    ensures
        r@ == (if n == 1 { single@ } else { plural(n as nat, unit@) }),
{
    if n == 1 {
        String::from_str(single)
    } else {
        plural_text(n, unit)
    }
}

impl TimePeriod {
    /// Text of this period in a precise rendering.
    pub fn to_text_precise(self) -> (r: String)
        ensures
            r@ == precise_text(self),
    {
        match self {
            TimePeriod::Now => String::from_str("now"),
            TimePeriod::Nanos(n) => abbreviated_text(n, " ns"),
            TimePeriod::Micros(n) => abbreviated_text(n, " µs"),
            TimePeriod::Millis(n) => abbreviated_text(n, " ms"),
            TimePeriod::Seconds(n) => counted_text(n, "second"),
            TimePeriod::Minutes(n) => counted_text(n, "minute"),
            TimePeriod::Hours(n) => counted_text(n, "hour"),
            TimePeriod::Days(n) => counted_text(n, "day"),
            TimePeriod::Weeks(n) => counted_text(n, "week"),
            TimePeriod::Months(n) => counted_text(n, "month"),
            TimePeriod::Years(n) => counted_text(n, "year"),
            TimePeriod::Eternity => String::from_str("eternity"),
        }
    }

    /// Text of this period in a rough rendering.
    pub fn to_text_rough(self) -> (r: String)
        ensures
            r@ == rough_text(self),
    {
        match self {
            TimePeriod::Now => String::from_str("now"),
            TimePeriod::Nanos(n) => abbreviated_text(n, " ns"),
            TimePeriod::Micros(n) => abbreviated_text(n, " µs"),
            TimePeriod::Millis(n) => abbreviated_text(n, " ms"),
            TimePeriod::Seconds(n) => plural_text(n, "second"),
            TimePeriod::Minutes(n) => rough_unit_text(n, "a minute", "minute"),
            TimePeriod::Hours(n) => rough_unit_text(n, "an hour", "hour"),
            TimePeriod::Days(n) => rough_unit_text(n, "a day", "day"),
            TimePeriod::Weeks(n) => rough_unit_text(n, "a week", "week"),
            TimePeriod::Months(n) => rough_unit_text(n, "a month", "month"),
            TimePeriod::Years(n) => rough_unit_text(n, "a year", "year"),
            TimePeriod::Eternity => String::from_str("eternity"),
        }
    }

    /// Text of this period under the given accuracy.
    pub fn to_text(self, accuracy: Accuracy) -> (r: String)
        ensures
            r@ == period_text(self, accuracy),
    {
        match accuracy {
            Accuracy::Rough => self.to_text_rough(),
            Accuracy::Precise => self.to_text_precise(),
        }
    }
}

/// Renders the periods as an English list, each under the given accuracy.
pub fn join_periods(periods: &Vec<TimePeriod>, accuracy: Accuracy) -> (r: String)
    requires
        periods.len() >= 1,
    ensures
        r@ == join_texts(period_texts(periods@, accuracy)),
{
    let ghost texts = period_texts(periods@, accuracy);
    let n = periods.len();
    let mut text = periods[0].to_text(accuracy);
    let mut i: usize = 1;
    while i + 1 < n
        invariant
            n == periods.len(),
            texts == period_texts(periods@, accuracy),
            texts.len() == n,
            1 <= i <= n,
            n >= 2 ==> i <= n - 1,
            text@ == comma_list(texts, i as nat),
        decreases n - i,
    {
        let next = periods[i].to_text(accuracy);
        text.append(", ");
        text.append(next.as_str());
        i = i + 1;
    }
    if n > 1 {
        let last = periods[n - 1].to_text(accuracy);
        text.append(" and ");
        text.append(last.as_str());
    }
    text
}

/// Frames a phrase in the given tense.
pub fn apply_tense(text: String, tense: Tense) -> (r: String)
    ensures
        r@ == with_tense(text@, tense),
{
    match tense {
        Tense::Past => {
            let mut s = text;
            s.append(" ago");
            s
        },
        Tense::Future => {
            let mut s = String::from_str("in ");
            s.append(text.as_str());
            s
        },
        Tense::Present => text,
    }
}

} // verus!
