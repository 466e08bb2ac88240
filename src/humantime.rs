//! The duration wrapper and its English rendering.
use vstd::prelude::*;

use crate::clock::{delta_secs, delta_subsec, epoch_nanos_of, epoch_offset, system_now};
use crate::period::{
    precise_periods_for, precise_periods_of, rough_period_for, rough_period_of, TimePeriod,
    NANOS_PER_SEC,
};
use crate::text::{apply_tense, join_periods, join_texts, period_texts, with_tense};

verus! {

/// Indicates the time of the period in relation to the time of the utterance
#[derive(Clone, Copy, Debug, Hash, PartialEq, Eq, Structural, PartialOrd)]
pub enum Tense {
    Past,
    Present,
    Future,
}

/// The accuracy of the representation
#[derive(Clone, Copy, Debug, Hash, PartialEq, Eq, Structural, PartialOrd)]
pub enum Accuracy {
    /// Rough approximation, easy to grasp, but not necessarily accurate
    Rough,
    /// Concise expression, accurate, but not necessarily easy to grasp
    Precise,
}

impl Accuracy {
    /// Returns whether this accuracy is precise
    #[must_use]
    pub fn is_precise(self) -> (r: bool)
        ensures
            r == (self == Accuracy::Precise),
    {
        matches!(self, Accuracy::Precise)
    }

    /// The accuracy that a formatting flag asks for: precise for the
    /// alternate form, rough otherwise.
    pub fn from_alternate(alternate: bool) -> (r: Accuracy)
        ensures
            r == (if alternate { Accuracy::Precise } else { Accuracy::Rough }),
    {
        if alternate {
            Accuracy::Precise
        } else {
            Accuracy::Rough
        }
    }

    /// Returns whether this accuracy is rough
    #[must_use]
    pub fn is_rough(self) -> (r: bool)
        ensures
            r == (self == Accuracy::Rough),
    {
        matches!(self, Accuracy::Rough)
    }
}

/// The absolute value of `n`.
pub open spec fn magnitude(n: int) -> nat {
    if n < 0 { (-n) as nat } else { n as nat }
}

/// Whole seconds in `n` nanoseconds, sign dropped.
pub open spec fn whole_seconds(n: int) -> nat {
    magnitude(n) / (NANOS_PER_SEC as nat)
}

/// The tense that a signed span of `n` nanoseconds reads in. A rough
/// rendering treats anything under eleven seconds as the present; a
/// precise one only zero.
pub open spec fn tense_of(n: int, accuracy: Accuracy) -> Tense {
    if accuracy == Accuracy::Rough && whole_seconds(n) < 11 {
        Tense::Present
    } else if n > 0 {
        Tense::Future
    } else if n < 0 {
        Tense::Past
    } else {
        Tense::Present
    }
}

/// The periods that a span of `n` nanoseconds is shown as.
pub open spec fn periods_of(n: int, accuracy: Accuracy) -> Seq<TimePeriod> {
    match accuracy {
        Accuracy::Rough => seq![rough_period_of(whole_seconds(n) as int)],
        Accuracy::Precise => precise_periods_of(magnitude(n)),
    }
}

/// The periods of a span, as an English list, without tense.
pub open spec fn body_text(n: int, accuracy: Accuracy) -> Seq<char> {
    join_texts(period_texts(periods_of(n, accuracy), accuracy))
}

/// The English phrase for a span of `n` nanoseconds.
pub open spec fn text_en(n: int, accuracy: Accuracy, tense: Tense) -> Seq<char> {
    with_tense(body_text(n, accuracy), tense)
}

/// An instant as seconds and nanoseconds since the Unix epoch.
#[derive(Clone, Copy, Debug, PartialEq, Eq, Structural)]
pub struct Timestamp {
    pub secs: i64,
    pub nanos: u32,
}

impl View for Timestamp {
    type V = int;

    /// Nanoseconds since the Unix epoch.
    open spec fn view(&self) -> int {
        self.secs * (NANOS_PER_SEC as int) + self.nanos
    }
}

/// An instant as its distance from the Unix epoch: `secs` seconds and
/// `nanos` nanoseconds, after the epoch or, where `before_epoch` holds,
/// before it.
#[derive(Clone, Copy, Debug, PartialEq, Eq, Structural)]
pub struct EpochOffset {
    pub before_epoch: bool,
    pub secs: u64,
    pub nanos: u32,
}

impl View for EpochOffset {
    type V = int;

    /// Signed nanoseconds since the Unix epoch.
    open spec fn view(&self) -> int {
        let distance = self.secs * (NANOS_PER_SEC as int) + self.nanos;
        if self.before_epoch { -distance } else { distance }
    }
}

/// A signed span of time, to be expressed in human language: positive
/// spans lie in the future, negative ones in the past.
#[derive(Clone, Copy, Debug, PartialEq, Eq, Structural, PartialOrd)]
pub struct HumanTime {
    nanos: i128,
}

impl View for HumanTime {
    type V = int;

    /// The signed span in nanoseconds.
    closed spec fn view(&self) -> int {
        self.nanos as int
    }
}

impl EpochOffset {
    /// Signed nanoseconds since the Unix epoch.
    pub fn to_nanos(self) -> (r: i128)
        ensures
            r == self@,
    {
        let distance = self.secs as i128 * 1_000_000_000 + self.nanos as i128;
        if self.before_epoch {
            -distance
        } else {
            distance
        }
    }
}

impl HumanTime {
    /// The span of length zero: the current point in time.
    pub fn now() -> (r: Self)
        ensures
            r@ == 0,
    {
        HumanTime { nanos: 0 }
    }

    /// The span of `secs` seconds and `nanos` nanoseconds, the two added
    /// with their signs.
    pub fn from_seconds_nanos(secs: i64, nanos: i32) -> (r: Self)
        ensures
            r@ == secs * (NANOS_PER_SEC as int) + nanos,
    {
        HumanTime { nanos: secs as i128 * 1_000_000_000 + nanos as i128 }
    }

    /// The span from `now` to `at`: negative where `at` lies before `now`.
    pub fn from_timestamps(at: Timestamp, now: Timestamp) -> (r: Self)
        ensures
            r@ == at@ - now@,
    {
        let secs = at.secs as i128 - now.secs as i128;
        let nanos = at.nanos as i128 - now.nanos as i128;
        HumanTime { nanos: secs * 1_000_000_000 + nanos }
    }

    /// The span from the current instant of the clock to `at`.
    pub fn from_timestamp(at: Timestamp) -> (r: Self)
        ensures
            exists|now: std::time::SystemTime| r@ == at@ - epoch_nanos_of(now),
    {
        let now = epoch_offset(&system_now());
        let at_nanos = at.secs as i128 * 1_000_000_000 + at.nanos as i128;
        HumanTime { nanos: at_nanos - now.to_nanos() }
    }

    /// The span from `now` to `at`, both given by their distance from the
    /// Unix epoch.
    pub fn from_epoch_offsets(at: EpochOffset, now: EpochOffset) -> (r: Self)
        ensures
            r@ == at@ - now@,
    {
        HumanTime { nanos: at.to_nanos() - now.to_nanos() }
    }

    /// The span from the current instant of the clock to `st`.
    pub fn from_system_time(st: std::time::SystemTime) -> (r: Self)
        ensures
            exists|now: std::time::SystemTime| r@ == epoch_nanos_of(st) - epoch_nanos_of(now),
    {
        let at = epoch_offset(&st);
        let now = epoch_offset(&system_now());
        Self::from_epoch_offsets(at, now)
    }

    /// Whether the span is zero.
    pub fn is_zero(self) -> (r: bool)
        ensures
            r == (self@ == 0),
    {
        self.nanos == 0
    }

    fn magnitude_nanos(self) -> (r: u128)
        ensures
            r == magnitude(self@),
    {
        if self.nanos >= 0 {
            self.nanos as u128
        } else {
            (-(self.nanos + 1)) as u128 + 1
        }
    }

    /// The tense in which this span reads under `accuracy`.
    pub fn tense(self, accuracy: Accuracy) -> (r: Tense)
        ensures
            r == tense_of(self@, accuracy),
    {
        if accuracy.is_rough() && self.magnitude_nanos() / NANOS_PER_SEC < 11 {
            Tense::Present
        } else if self.nanos > 0 {
            Tense::Future
        } else if self.nanos < 0 {
            Tense::Past
        } else {
            Tense::Present
        }
    }

    /// The single period that a rough rendering shows.
    pub fn rough_period(self) -> (r: Vec<TimePeriod>)
        ensures
            r@ == periods_of(self@, Accuracy::Rough),
    {
        let period = rough_period_for(self.magnitude_nanos() / NANOS_PER_SEC);
        vec![period]
    }

    /// The exact breakdown that a precise rendering shows.
    pub fn precise_period(self) -> (r: Vec<TimePeriod>)
        ensures
            r@ == periods_of(self@, Accuracy::Precise),
    {
        precise_periods_for(self.magnitude_nanos())
    }

    /// Gives English text representation of the `HumanTime` with given `accuracy` and `tense`
    #[must_use]
    pub fn to_text_en(self, accuracy: Accuracy, tense: Tense) -> (r: String)
        ensures
            r@ == text_en(self@, accuracy, tense),
    {
        let periods = match accuracy {
            Accuracy::Rough => self.rough_period(),
            Accuracy::Precise => self.precise_period(),
        };
        let text = join_periods(&periods, accuracy);
        apply_tense(text, tense)
    }

    /// English text under `accuracy`, in the tense that the span itself gives.
    pub fn locale_en(&self, accuracy: Accuracy) -> (r: String)
        ensures
            r@ == text_en(self@, accuracy, tense_of(self@, accuracy)),
    {
        let tense = self.tense(accuracy);
        self.to_text_en(accuracy, tense)
    }
}

/// The span that a chrono delta stands for, in nanoseconds.
pub open spec fn delta_nanos(d: chrono::TimeDelta) -> int {
    delta_secs(d) * (NANOS_PER_SEC as int) + delta_subsec(d)
}

impl vstd::std_specs::convert::FromSpecImpl<chrono::TimeDelta> for HumanTime {
    open spec fn obeys_from_spec() -> bool {
        true
    }

    open spec fn from_spec(v: chrono::TimeDelta) -> HumanTime {
        choose|h: HumanTime| h@ == delta_nanos(v)
    }
}

impl From<chrono::TimeDelta> for HumanTime {
    fn from(d: chrono::TimeDelta) -> Self {
        Self::from_seconds_nanos(d.num_seconds(), d.subsec_nanos())
    }
}

// The span depends on the clock as well as on `v`, so no value of `from` is
// claimed here: what it computes is stated by `from_system_time`.
impl vstd::std_specs::convert::FromSpecImpl<std::time::SystemTime> for HumanTime {
    open spec fn obeys_from_spec() -> bool {
        false
    }

    open spec fn from_spec(v: std::time::SystemTime) -> HumanTime {
        arbitrary()
    }
}

impl From<std::time::SystemTime> for HumanTime {
    fn from(st: std::time::SystemTime) -> Self {
        Self::from_system_time(st)
    }
}

} // verus!
