//! Rhythmic values, their tweaks, and the meter and tempo descriptors.

use vstd::prelude::*;

verus! {

/// The plain rhythmic denominations, longest first.
#[derive(Copy, Clone, Debug, PartialEq, Eq, Structural, Hash)]
pub enum Units {
    Whole,
    Half,
    Quarter,
    Eighth,
    Sixteenth,
    ThirtySecond,
}

/// A rhythmic value: instantaneous, a plain denomination, or a dotted one.
#[derive(Copy, Clone, Debug, PartialEq, Eq, Structural, Hash)]
pub enum Duration {
    Zero,
    Simple(Units),
    Dotted(Units),
}

/// A modifier applied to a duration.
#[derive(Copy, Clone, Debug, PartialEq, Eq, Structural, Hash)]
pub enum DurationTweak {
    Double,
    Halve,
    AddDot,
    RemoveDot,
}

/// The tweak was asked of a duration outside the range where it is defined.
#[derive(Copy, Clone, Debug, PartialEq, Eq, Structural, Hash)]
pub struct UnsupportedTweak {
    pub duration: Duration,
    pub tweak: DurationTweak,
}

impl Units {
    /// Rank from the longest (0) to the shortest (5).
    pub open spec fn spec_rank(self) -> int {
        match self {
            Units::Whole => 0,
            Units::Half => 1,
            Units::Quarter => 2,
            Units::Eighth => 3,
            Units::Sixteenth => 4,
            Units::ThirtySecond => 5,
        }
    }

    /// Length in sixty-fourths of a whole note.
    pub open spec fn spec_length(self) -> int {
        match self {
            Units::Whole => 64,
            Units::Half => 32,
            Units::Quarter => 16,
            Units::Eighth => 8,
            Units::Sixteenth => 4,
            Units::ThirtySecond => 2,
        }
    }

    pub open spec fn spec_from_rank(rank: int) -> Option<Units> {
        if rank == 0 {
            Some(Units::Whole)
        } else if rank == 1 {
            Some(Units::Half)
        } else if rank == 2 {
            Some(Units::Quarter)
        } else if rank == 3 {
            Some(Units::Eighth)
        } else if rank == 4 {
            Some(Units::Sixteenth)
        } else if rank == 5 {
            Some(Units::ThirtySecond)
        } else {
            None
        }
    }

    /// The denomination twice as long, if there is one.
    pub fn longer(&self) -> (r: Option<Units>)
        ensures
            r == Units::spec_from_rank(self.spec_rank() - 1),
    {
        match self {
            Units::Whole => None,
            Units::Half => Some(Units::Whole),
            Units::Quarter => Some(Units::Half),
            Units::Eighth => Some(Units::Quarter),
            Units::Sixteenth => Some(Units::Eighth),
            Units::ThirtySecond => Some(Units::Sixteenth),
        }
    }

    /// The denomination half as long, if there is one.
    pub fn shorter(&self) -> (r: Option<Units>)
        ensures
            r == Units::spec_from_rank(self.spec_rank() + 1),
    {
        match self {
            Units::Whole => Some(Units::Half),
            Units::Half => Some(Units::Quarter),
            Units::Quarter => Some(Units::Eighth),
            Units::Eighth => Some(Units::Sixteenth),
            Units::Sixteenth => Some(Units::ThirtySecond),
            Units::ThirtySecond => None,
        }
    }
}

impl DurationTweak {
    /// The tweak that undoes this one.
    pub open spec fn spec_inverse(self) -> DurationTweak {
        match self {
            DurationTweak::Double => DurationTweak::Halve,
            DurationTweak::Halve => DurationTweak::Double,
            DurationTweak::AddDot => DurationTweak::RemoveDot,
            DurationTweak::RemoveDot => DurationTweak::AddDot,
        }
    }

    pub fn inverse(&self) -> (r: DurationTweak)
        ensures
            r == self.spec_inverse(),
    {
        match self {
            DurationTweak::Double => DurationTweak::Halve,
            DurationTweak::Halve => DurationTweak::Double,
            DurationTweak::AddDot => DurationTweak::RemoveDot,
            DurationTweak::RemoveDot => DurationTweak::AddDot,
        }
    }
}

impl Duration {
    /// Length in sixty-fourths of a whole note; a dot adds half.
    pub open spec fn spec_length(self) -> int {
        match self {
            Duration::Zero => 0,
            Duration::Simple(u) => u.spec_length(),
            Duration::Dotted(u) => u.spec_length() + u.spec_length() / 2,
        }
    }

    /// What a tweak makes of a duration: doubling and halving move one
    /// denomination and keep a dot; a dot is added only to a plain value and
    /// removed only from a dotted one; the zero duration takes no tweak.
    pub open spec fn spec_tweak(self, t: DurationTweak) -> Option<Duration> {
        match (self, t) {
            (Duration::Simple(u), DurationTweak::Double) => match Units::spec_from_rank(
                u.spec_rank() - 1,
            ) {
                Some(v) => Some(Duration::Simple(v)),
                None => None,
            },
            (Duration::Dotted(u), DurationTweak::Double) => match Units::spec_from_rank(
                u.spec_rank() - 1,
            ) {
                Some(v) => Some(Duration::Dotted(v)),
                None => None,
            },
            (Duration::Simple(u), DurationTweak::Halve) => match Units::spec_from_rank(
                u.spec_rank() + 1,
            ) {
                Some(v) => Some(Duration::Simple(v)),
                None => None,
            },
            (Duration::Dotted(u), DurationTweak::Halve) => match Units::spec_from_rank(
                u.spec_rank() + 1,
            ) {
                Some(v) => Some(Duration::Dotted(v)),
                None => None,
            },
            (Duration::Simple(u), DurationTweak::AddDot) => Some(Duration::Dotted(u)),
            (Duration::Dotted(u), DurationTweak::RemoveDot) => Some(Duration::Simple(u)),
            _ => None,
        }
    }

    pub fn length(&self) -> (r: u8)
        ensures
            r as int == self.spec_length(),
    {
        match self {
            Duration::Zero => 0,
            Duration::Simple(u) => units_length(u),
            Duration::Dotted(u) => {
                let l = units_length(u);
                l + l / 2
            },
        }
    }

    /// Applies a tweak, or fails where the result would leave the
    /// enumerated set.
    pub fn tweak(&self, t: DurationTweak) -> (r: Result<Duration, UnsupportedTweak>)
        ensures
            match self.spec_tweak(t) {
                Some(d) => r == Ok::<Duration, UnsupportedTweak>(d),
                None => r == Err::<Duration, UnsupportedTweak>(
                    UnsupportedTweak { duration: *self, tweak: t },
                ),
            },
    {
        let fail = UnsupportedTweak { duration: *self, tweak: t };
        match (*self, t) {
            (Duration::Simple(u), DurationTweak::Double) => match u.longer() {
                Some(v) => Ok(Duration::Simple(v)),
                None => Err(fail),
            },
            (Duration::Dotted(u), DurationTweak::Double) => match u.longer() {
                Some(v) => Ok(Duration::Dotted(v)),
                None => Err(fail),
            },
            (Duration::Simple(u), DurationTweak::Halve) => match u.shorter() {
                Some(v) => Ok(Duration::Simple(v)),
                None => Err(fail),
            },
            (Duration::Dotted(u), DurationTweak::Halve) => match u.shorter() {
                Some(v) => Ok(Duration::Dotted(v)),
                None => Err(fail),
            },
            (Duration::Simple(u), DurationTweak::AddDot) => Ok(Duration::Dotted(u)),
            (Duration::Dotted(u), DurationTweak::RemoveDot) => Ok(Duration::Simple(u)),
            _ => Err(fail),
        }
    }

    /// `self` is strictly shorter than `other`.
    pub fn is_shorter_than(&self, other: &Duration) -> (r: bool)
        ensures
            r == (self.spec_length() < other.spec_length()),
    {
        self.length() < other.length()
    }
}

fn units_length(u: &Units) -> (r: u8)
    ensures
        r as int == u.spec_length(),
{
    match u {
        Units::Whole => 64,
        Units::Half => 32,
        Units::Quarter => 16,
        Units::Eighth => 8,
        Units::Sixteenth => 4,
        Units::ThirtySecond => 2,
    }
}

/// Tweaking a duration and then applying the inverse tweak gives the duration
/// back; where a tweak fails, no duration reaches it by the inverse tweak, so
/// both directions fail together at the ends of the range.
pub proof fn lemma_tweak_inverse(d: Duration, t: DurationTweak)
    ensures
        match d.spec_tweak(t) {
            Some(e) => e.spec_tweak(t.spec_inverse()) == Some(d),
            None => forall|e: Duration| #[trigger] e.spec_tweak(t.spec_inverse()) != Some(d),
        },
{
    match d.spec_tweak(t) {
        Some(e) => {},
        None => {
            assert forall|e: Duration| #[trigger] e.spec_tweak(t.spec_inverse()) != Some(d) by {
                match e {
                    Duration::Zero => {},
                    Duration::Simple(u) => {},
                    Duration::Dotted(u) => {},
                }
            }
        },
    }
}

/// A meter: the value of one beat and the number of beats in a bar.
#[derive(Copy, Clone, Debug, PartialEq, Eq, Structural, Hash)]
pub struct Signature {
    pub beat_unit: Units,
    pub bar_beats: u8,
}

impl Signature {
    pub fn new(beat_unit: Units, bar_beats: u8) -> (r: Signature)
        ensures
            r.beat_unit == beat_unit,
            r.bar_beats == bar_beats,
    {
        Signature { beat_unit, bar_beats }
    }

    /// Length of a full bar in sixty-fourths of a whole note.
    pub fn bar_length(&self) -> (r: u16)
        ensures
            r as int == self.beat_unit.spec_length() * self.bar_beats as int,
    {
        let unit = units_length(&self.beat_unit) as u16;
        assert(unit as int * self.bar_beats as int <= 64 * 255) by (nonlinear_arith)
            requires
                unit <= 64,
                self.bar_beats <= 255,
        ;
        unit * (self.bar_beats as u16)
    }
}

/// A tempo in beats per minute; the value is not validated.
#[derive(Copy, Clone, Debug, PartialEq, Eq, Structural, Hash)]
pub struct Tempo {
    pub bpm: u16,
}

impl Tempo {
    pub fn new(bpm: u16) -> (r: Tempo)
        ensures
            r.bpm == bpm,
    {
        Tempo { bpm }
    }
}

impl Default for Duration {
    fn default() -> (r: Duration)
        ensures
            r == Duration::Simple(Units::Quarter),
    {
        Duration::Simple(Units::Quarter)
    }
}

} // verus!
