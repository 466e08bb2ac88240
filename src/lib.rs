//! Human-readable English phrases for signed durations.
//!
//! A [`HumanTime`] is a signed span in nanoseconds, built from a chrono
//! `TimeDelta`, from two instants, or from an instant and the clock. It
//! renders either roughly ("a month ago": one period, rounded) or
//! precisely ("1 month, 2 weeks and 1 day ago": an exact breakdown).
//!
//! - `period`: the rough threshold table and the precise mixed-radix split;
//! - `text`: the words for each period, list joining and tense framing;
//! - `humantime`: the span itself, its tense, and the whole phrase;
//! - `laws`: proofs of how these fit together.
use vstd::prelude::*;

pub mod clock;
pub mod humantime;
pub mod laws;
pub mod period;
pub mod text;

pub use crate::humantime::{Accuracy, EpochOffset, HumanTime, Tense, Timestamp};
pub use crate::period::TimePeriod;

use crate::clock::epoch_nanos_of;
use crate::humantime::{delta_nanos, tense_of, text_en};

verus! {

/// Present the object in human friendly text form
pub trait Humanize {
    /// Whether `text` is a rendering of this object.
    spec fn humanized(&self, text: Seq<char>) -> bool;

    /// Emits `String` that represents current object in human friendly form
    fn humanize(&self) -> (r: String)
        ensures
            self.humanized(r@),
    ;
}

impl Humanize for chrono::TimeDelta {
    /// The rough phrase for the delta, in the tense it gives itself.
    open spec fn humanized(&self, text: Seq<char>) -> bool {
        text == text_en(delta_nanos(*self), Accuracy::Rough, tense_of(delta_nanos(*self), Accuracy::Rough))
    }

    fn humanize(&self) -> (r: String) {
        HumanTime::from_seconds_nanos(self.num_seconds(), self.subsec_nanos()).locale_en(Accuracy::Rough)
    }
}

impl Humanize for std::time::SystemTime {
    /// The rough phrase for the span from some reading of the clock to this
    /// instant, in the tense it gives itself.
    open spec fn humanized(&self, text: Seq<char>) -> bool {
        exists|now: std::time::SystemTime|
            text == text_en(
                epoch_nanos_of(*self) - epoch_nanos_of(now),
                Accuracy::Rough,
                tense_of(epoch_nanos_of(*self) - epoch_nanos_of(now), Accuracy::Rough),
            )
    }

    fn humanize(&self) -> (r: String) {
        HumanTime::from_system_time(*self).locale_en(Accuracy::Rough)
    }
}

} // verus!
