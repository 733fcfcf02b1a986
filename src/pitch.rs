//! Pitch algebra: semitone counts, octaves, pitch classes and notes, with
//! lossless conversions between them.

use vstd::prelude::*;

verus! {

/// Number of supported octave levels.
pub const OCTAVE_LEVELS: u8 = 10;

/// A signed distance in semitones from the origin, the lowest C of the
/// supported range.
#[derive(Copy, Clone, Debug, PartialEq, Eq, Structural, PartialOrd, Ord, Hash)]
pub struct Semitones(pub i32);

/// An octave level; `P0` starts at semitone 0 and each level spans twelve.
#[derive(Copy, Clone, Debug, PartialEq, Eq, Structural, PartialOrd, Ord, Hash)]
pub enum Octave {
    P0,
    P1,
    P2,
    P3,
    P4,
    P5,
    P6,
    P7,
    P8,
    P9,
}

/// The seven letter names of a pitch.
#[derive(Copy, Clone, Debug, PartialEq, Eq, Structural, Hash)]
pub enum PitchName {
    C,
    D,
    E,
    F,
    G,
    A,
    B,
}

/// The accidental of a pitch spelling.
#[derive(Copy, Clone, Debug, PartialEq, Eq, Structural, Hash)]
pub enum PitchSign {
    Natural,
    Sharp,
    Flat,
}

/// A pitch class as spelled: several spellings may name one pitch class.
#[derive(Copy, Clone, Debug, PartialEq, Eq, Structural, Hash)]
pub struct Pitch {
    pub name: PitchName,
    pub sign: PitchSign,
}

/// A pitch class in a given octave.
#[derive(Copy, Clone, Debug, PartialEq, Eq, Structural, Hash)]
pub struct Note {
    pub octave: Octave,
    pub pitch: Pitch,
}

impl Octave {
    pub open spec fn spec_level(self) -> int {
        match self {
            Octave::P0 => 0,
            Octave::P1 => 1,
            Octave::P2 => 2,
            Octave::P3 => 3,
            Octave::P4 => 4,
            Octave::P5 => 5,
            Octave::P6 => 6,
            Octave::P7 => 7,
            Octave::P8 => 8,
            Octave::P9 => 9,
        }
    }

    /// The octave at a level; levels past the range saturate at its ends.
    pub open spec fn spec_from_level(level: int) -> Octave {
        if level <= 0 {
            Octave::P0
        } else if level == 1 {
            Octave::P1
        } else if level == 2 {
            Octave::P2
        } else if level == 3 {
            Octave::P3
        } else if level == 4 {
            Octave::P4
        } else if level == 5 {
            Octave::P5
        } else if level == 6 {
            Octave::P6
        } else if level == 7 {
            Octave::P7
        } else if level == 8 {
            Octave::P8
        } else {
            Octave::P9
        }
    }

    pub fn level(&self) -> (r: u8)
        ensures
            r as int == self.spec_level(),
            r < OCTAVE_LEVELS,
    {
        match self {
            Octave::P0 => 0,
            Octave::P1 => 1,
            Octave::P2 => 2,
            Octave::P3 => 3,
            Octave::P4 => 4,
            Octave::P5 => 5,
            Octave::P6 => 6,
            Octave::P7 => 7,
            Octave::P8 => 8,
            Octave::P9 => 9,
        }
    }

    pub fn from_level(level: u8) -> (r: Octave)
        ensures
            r == Octave::spec_from_level(level as int),
    {
        match level {
            0 => Octave::P0,
            1 => Octave::P1,
            2 => Octave::P2,
            3 => Octave::P3,
            4 => Octave::P4,
            5 => Octave::P5,
            6 => Octave::P6,
            7 => Octave::P7,
            8 => Octave::P8,
            _ => Octave::P9,
        }
    }

    /// The semitone value at which this octave starts.
    pub open spec fn spec_semitones(self) -> int {
        12 * self.spec_level()
    }
}

impl PitchName {
    pub open spec fn spec_semitones(self) -> int {
        match self {
            PitchName::C => 0,
            PitchName::D => 2,
            PitchName::E => 4,
            PitchName::F => 5,
            PitchName::G => 7,
            PitchName::A => 9,
            PitchName::B => 11,
        }
    }
}

impl PitchSign {
    pub open spec fn spec_offset(self) -> int {
        match self {
            PitchSign::Natural => 0,
            PitchSign::Sharp => 1,
            PitchSign::Flat => -1,
        }
    }
}

/// The pitch class of a semitone value, in `[0, 11]`.
pub open spec fn pitch_class(v: int) -> int {
    v % 12
}

impl Pitch {
    /// Offset of this pitch class above C, in `[0, 11]`.
    pub open spec fn spec_semitones(self) -> int {
        pitch_class(self.name.spec_semitones() + self.sign.spec_offset())
    }

    /// The spelling this library gives a pitch class: naturals, else sharps.
    pub open spec fn spec_from_class(c: int) -> Pitch {
        let (name, sign) = if c == 0 {
            (PitchName::C, PitchSign::Natural)
        } else if c == 1 {
            (PitchName::C, PitchSign::Sharp)
        } else if c == 2 {
            (PitchName::D, PitchSign::Natural)
        } else if c == 3 {
            (PitchName::D, PitchSign::Sharp)
        } else if c == 4 {
            (PitchName::E, PitchSign::Natural)
        } else if c == 5 {
            (PitchName::F, PitchSign::Natural)
        } else if c == 6 {
            (PitchName::F, PitchSign::Sharp)
        } else if c == 7 {
            (PitchName::G, PitchSign::Natural)
        } else if c == 8 {
            (PitchName::G, PitchSign::Sharp)
        } else if c == 9 {
            (PitchName::A, PitchSign::Natural)
        } else if c == 10 {
            (PitchName::A, PitchSign::Sharp)
        } else {
            (PitchName::B, PitchSign::Natural)
        };
        Pitch { name, sign }
    }

    /// A spelling is canonical when it is the one `Pitch::from(Semitones)`
    /// gives: a natural, or a sharp on C, D, F, G or A.
    pub open spec fn is_canonical(self) -> bool {
        Pitch::spec_from_class(self.spec_semitones()) == self
    }

    pub fn new(name: PitchName, sign: PitchSign) -> (r: Pitch)
        ensures
            r.name == name,
            r.sign == sign,
    {
        Pitch { name, sign }
    }

    pub fn is_canonical_spelling(&self) -> (r: bool)
        ensures
            r == self.is_canonical(),
    {
        match self.sign {
            PitchSign::Natural => true,
            PitchSign::Sharp => match self.name {
                PitchName::E | PitchName::B => false,
                _ => true,
            },
            PitchSign::Flat => false,
        }
    }
}

impl Note {
    pub open spec fn spec_semitones(self) -> int {
        self.octave.spec_semitones() + self.pitch.spec_semitones()
    }

    /// The note of a semitone value; values past the supported octaves keep
    /// their pitch class and take the nearest octave.
    pub open spec fn spec_from_semitones(v: int) -> Note {
        Note {
            octave: Octave::spec_from_level(octave_level(v)),
            pitch: Pitch::spec_from_class(pitch_class(v)),
        }
    }

    pub fn new(octave: Octave, pitch: Pitch) -> (r: Note)
        ensures
            r.octave == octave,
            r.pitch == pitch,
    {
        Note { octave, pitch }
    }
}

/// The octave level of a semitone value, before saturation.
pub open spec fn octave_level(v: int) -> int {
    v / 12
}

impl From<Octave> for Semitones {
    fn from(v: Octave) -> (r: Semitones) {
        Semitones(12 * (v.level() as i32))
    }
}

impl vstd::std_specs::convert::FromSpecImpl<Octave> for Semitones {
    open spec fn obeys_from_spec() -> bool {
        true
    }

    open spec fn from_spec(v: Octave) -> Semitones {
        Semitones(v.spec_semitones() as i32)
    }
}

impl From<Pitch> for Semitones {
    fn from(v: Pitch) -> (r: Semitones) {
        let name: i32 = match v.name {
            PitchName::C => 0,
            PitchName::D => 2,
            PitchName::E => 4,
            PitchName::F => 5,
            PitchName::G => 7,
            PitchName::A => 9,
            PitchName::B => 11,
        };
        let raw: i32 = match v.sign {
            PitchSign::Natural => name,
            PitchSign::Sharp => name + 1,
            PitchSign::Flat => name - 1,
        };
        if raw < 0 {
            Semitones(raw + 12)
        } else if raw >= 12 {
            Semitones(raw - 12)
        } else {
            Semitones(raw)
        }
    }
}

impl vstd::std_specs::convert::FromSpecImpl<Pitch> for Semitones {
    open spec fn obeys_from_spec() -> bool {
        true
    }

    open spec fn from_spec(v: Pitch) -> Semitones {
        Semitones(v.spec_semitones() as i32)
    }
}

impl From<Note> for Semitones {
    fn from(v: Note) -> (r: Semitones) {
        let octave_val = Semitones::from(v.octave).0;
        let pitch_val = Semitones::from(v.pitch).0;
        Semitones(octave_val + pitch_val)
    }
}

impl vstd::std_specs::convert::FromSpecImpl<Note> for Semitones {
    open spec fn obeys_from_spec() -> bool {
        true
    }

    open spec fn from_spec(v: Note) -> Semitones {
        Semitones(v.spec_semitones() as i32)
    }
}

/// The pitch class of an `i32`, computed without signed remainder.
fn class_of(v: i32) -> (r: u8)
    ensures
        r as int == pitch_class(v as int),
        r < 12,
{
    let shifted: i64 = v as i64 + 2_400_000_000i64;
    proof {
        vstd::arithmetic::div_mod::lemma_mod_add_multiples_vanish(v as int + 0, 12);
        assert(2_400_000_000int == 12 * 200_000_000int);
        vstd::arithmetic::div_mod::lemma_mod_multiples_vanish(200_000_000int, v as int, 12);
    }
    ((shifted as u64) % 12) as u8
}

impl From<Semitones> for Octave {
    fn from(v: Semitones) -> (r: Octave) {
        if v.0 < 0 {
            Octave::P0
        } else if v.0 >= 120 {
            Octave::P9
        } else {
            Octave::from_level((v.0 / 12) as u8)
        }
    }
}

impl vstd::std_specs::convert::FromSpecImpl<Semitones> for Octave {
    open spec fn obeys_from_spec() -> bool {
        true
    }

    open spec fn from_spec(v: Semitones) -> Octave {
        Octave::spec_from_level(octave_level(v.0 as int))
    }
}

impl From<Semitones> for Pitch {
    fn from(v: Semitones) -> (r: Pitch) {
        let c = class_of(v.0);
        let (name, sign) = if c == 0 {
            (PitchName::C, PitchSign::Natural)
        } else if c == 1 {
            (PitchName::C, PitchSign::Sharp)
        } else if c == 2 {
            (PitchName::D, PitchSign::Natural)
        } else if c == 3 {
            (PitchName::D, PitchSign::Sharp)
        } else if c == 4 {
            (PitchName::E, PitchSign::Natural)
        } else if c == 5 {
            (PitchName::F, PitchSign::Natural)
        } else if c == 6 {
            (PitchName::F, PitchSign::Sharp)
        } else if c == 7 {
            (PitchName::G, PitchSign::Natural)
        } else if c == 8 {
            (PitchName::G, PitchSign::Sharp)
        } else if c == 9 {
            (PitchName::A, PitchSign::Natural)
        } else if c == 10 {
            (PitchName::A, PitchSign::Sharp)
        } else {
            (PitchName::B, PitchSign::Natural)
        };
        Pitch { name, sign }
    }
}

impl vstd::std_specs::convert::FromSpecImpl<Semitones> for Pitch {
    open spec fn obeys_from_spec() -> bool {
        true
    }

    open spec fn from_spec(v: Semitones) -> Pitch {
        Pitch::spec_from_class(pitch_class(v.0 as int))
    }
}

impl From<Semitones> for Note {
    fn from(v: Semitones) -> (r: Note) {
        let octave = Octave::from(v);
        let pitch = Pitch::from(v);
        Note::new(octave, pitch)
    }
}

impl vstd::std_specs::convert::FromSpecImpl<Semitones> for Note {
    open spec fn obeys_from_spec() -> bool {
        true
    }

    open spec fn from_spec(v: Semitones) -> Note {
        Note::spec_from_semitones(v.0 as int)
    }
}

impl From<(Octave, Pitch)> for Note {
    fn from(v: (Octave, Pitch)) -> (r: Note) {
        Note::new(v.0, v.1)
    }
}

impl vstd::std_specs::convert::FromSpecImpl<(Octave, Pitch)> for Note {
    open spec fn obeys_from_spec() -> bool {
        true
    }

    open spec fn from_spec(v: (Octave, Pitch)) -> Note {
        Note { octave: v.0, pitch: v.1 }
    }
}

impl Semitones {
    /// The sum of two distances, if it fits.
    pub fn checked_add(&self, other: Semitones) -> (r: Option<Semitones>)
        ensures
            i32::MIN <= self.0 + other.0 <= i32::MAX ==> r == Some(Semitones((self.0 + other.0) as i32)),
            !(i32::MIN <= self.0 + other.0 <= i32::MAX) ==> r is None,
    {
        match self.0.checked_add(other.0) {
            Some(v) => Some(Semitones(v)),
            None => None,
        }
    }

    /// The difference of two distances, if it fits.
    pub fn checked_sub(&self, other: Semitones) -> (r: Option<Semitones>)
        ensures
            i32::MIN <= self.0 - other.0 <= i32::MAX ==> r == Some(Semitones((self.0 - other.0) as i32)),
            !(i32::MIN <= self.0 - other.0 <= i32::MAX) ==> r is None,
    {
        match self.0.checked_sub(other.0) {
            Some(v) => Some(Semitones(v)),
            None => None,
        }
    }
}

impl Note {
    /// Notes are ordered by their semitone values.
    pub fn is_lower_than(&self, other: &Note) -> (r: bool)
        ensures
            r == (self.spec_semitones() < other.spec_semitones()),
    {
        Semitones::from(*self).0 < Semitones::from(*other).0
    }
}

/// Every note maps to a semitone value and back to itself, provided its pitch
/// is spelled canonically (an enharmonic spelling such as E flat comes back
/// as D sharp).
pub proof fn lemma_note_round_trip(note: Note)
    requires
        note.pitch.is_canonical(),
    ensures
        Note::spec_from_semitones(note.spec_semitones()) == note,
        0 <= note.spec_semitones() < 120,
{
    let l = note.octave.spec_level();
    let p = note.pitch.spec_semitones();
    assert(0 <= p < 12);
    assert((12 * l + p) / 12 == l) by (nonlinear_arith)
        requires
            0 <= p < 12,
    ;
    assert((12 * l + p) % 12 == p) by (nonlinear_arith)
        requires
            0 <= p < 12,
    ;
    assert(Octave::spec_from_level(l) == note.octave);
}

} // verus!
