//! Keys, scales and solfege syllables, and the resolution of a syllable in a
//! key and scale to an absolute note.

use vstd::prelude::*;
use crate::pitch::{pitch_class, Note, Octave, Pitch, PitchName, PitchSign, Semitones};

verus! {

/// A movable-do solfege syllable, with chromatic alterations.
#[derive(Copy, Clone, Debug, PartialEq, Eq, Structural, Hash)]
pub enum Syllable {
    Do,
    Di,
    Ra,
    Re,
    Ri,
    Me,
    Mi,
    Fa,
    Fi,
    Se,
    So,
    Si,
    Le,
    La,
    Li,
    Te,
    Ti,
}

/// A syllable in an octave.
#[derive(Copy, Clone, Debug, PartialEq, Eq, Structural, Hash)]
pub struct SyllableNote {
    pub octave: Octave,
    pub syllable: Syllable,
}

/// The tonic of a piece.
#[derive(Copy, Clone, Debug, PartialEq, Eq, Structural, Hash)]
pub struct Key {
    pub tonic: Pitch,
}

/// A scale: which syllables exist, in order from the tonic.
#[derive(Copy, Clone, Debug, PartialEq, Eq, Structural, Hash)]
pub enum Scale {
    Major,
    Minor,
    MajorPentatonic,
    MinorPentatonic,
}

/// The scale has no such syllable.
#[derive(Copy, Clone, Debug, PartialEq, Eq, Structural, Hash)]
pub struct UnknownSyllable {
    pub scale: Scale,
    pub syllable: Syllable,
}

impl Syllable {
    /// Distance above the tonic in semitones.
    pub open spec fn spec_interval(self) -> int {
        match self {
            Syllable::Do => 0,
            Syllable::Di => 1,
            Syllable::Ra => 1,
            Syllable::Re => 2,
            Syllable::Ri => 3,
            Syllable::Me => 3,
            Syllable::Mi => 4,
            Syllable::Fa => 5,
            Syllable::Fi => 6,
            Syllable::Se => 6,
            Syllable::So => 7,
            Syllable::Si => 8,
            Syllable::Le => 8,
            Syllable::La => 9,
            Syllable::Li => 10,
            Syllable::Te => 10,
            Syllable::Ti => 11,
        }
    }

    pub fn interval(&self) -> (r: u8)
        ensures
            r as int == self.spec_interval(),
    {
        match self {
            Syllable::Do => 0,
            Syllable::Di => 1,
            Syllable::Ra => 1,
            Syllable::Re => 2,
            Syllable::Ri => 3,
            Syllable::Me => 3,
            Syllable::Mi => 4,
            Syllable::Fa => 5,
            Syllable::Fi => 6,
            Syllable::Se => 6,
            Syllable::So => 7,
            Syllable::Si => 8,
            Syllable::Le => 8,
            Syllable::La => 9,
            Syllable::Li => 10,
            Syllable::Te => 10,
            Syllable::Ti => 11,
        }
    }
}

impl SyllableNote {
    pub fn new(octave: Octave, syllable: Syllable) -> (r: SyllableNote)
        ensures
            r.octave == octave,
            r.syllable == syllable,
    {
        SyllableNote { octave, syllable }
    }
}

impl Key {
    pub fn new(tonic: Pitch) -> (r: Key)
        ensures
            r.tonic == tonic,
    {
        Key { tonic }
    }
}

impl Default for Key {
    fn default() -> (r: Key)
        ensures
            r.tonic == (Pitch { name: PitchName::C, sign: PitchSign::Natural }),
    {
        Key { tonic: Pitch { name: PitchName::C, sign: PitchSign::Natural } }
    }
}

impl Default for Scale {
    fn default() -> (r: Scale)
        ensures
            r == Scale::Major,
    {
        Scale::Major
    }
}

/// The absolute semitone value of a syllable in a key, before it is made a
/// note.
pub open spec fn syllable_semitones(key: Key, sn: SyllableNote) -> int {
    sn.octave.spec_semitones() + key.tonic.spec_semitones() + sn.syllable.spec_interval()
}

impl Scale {
    pub open spec fn spec_syllables(self) -> Seq<Syllable> {
        match self {
            Scale::Major => seq![
                Syllable::Do,
                Syllable::Re,
                Syllable::Mi,
                Syllable::Fa,
                Syllable::So,
                Syllable::La,
                Syllable::Ti,
            ],
            Scale::Minor => seq![
                Syllable::Do,
                Syllable::Re,
                Syllable::Me,
                Syllable::Fa,
                Syllable::So,
                Syllable::Le,
                Syllable::Te,
            ],
            Scale::MajorPentatonic => seq![
                Syllable::Do,
                Syllable::Re,
                Syllable::Mi,
                Syllable::So,
                Syllable::La,
            ],
            Scale::MinorPentatonic => seq![
                Syllable::Do,
                Syllable::Me,
                Syllable::Fa,
                Syllable::So,
                Syllable::Te,
            ],
        }
    }

    pub open spec fn defines(self, syllable: Syllable) -> bool {
        self.spec_syllables().contains(syllable)
    }

    /// The note of a syllable in a key, when the scale defines the syllable.
    pub open spec fn spec_calc_note(self, key: Key, sn: SyllableNote) -> Result<
        Note,
        UnknownSyllable,
    > {
        if self.defines(sn.syllable) {
            Ok(Note::spec_from_semitones(syllable_semitones(key, sn)))
        } else {
            Err(UnknownSyllable { scale: self, syllable: sn.syllable })
        }
    }

    /// The syllables of the scale, in order from the tonic; a new vector on
    /// every call.
    pub fn get_syllables(&self) -> (r: Vec<Syllable>)
        ensures
            r@ == self.spec_syllables(),
    {
        let r = match self {
            Scale::Major => vec![
                Syllable::Do,
                Syllable::Re,
                Syllable::Mi,
                Syllable::Fa,
                Syllable::So,
                Syllable::La,
                Syllable::Ti,
            ],
            Scale::Minor => vec![
                Syllable::Do,
                Syllable::Re,
                Syllable::Me,
                Syllable::Fa,
                Syllable::So,
                Syllable::Le,
                Syllable::Te,
            ],
            Scale::MajorPentatonic => vec![
                Syllable::Do,
                Syllable::Re,
                Syllable::Mi,
                Syllable::So,
                Syllable::La,
            ],
            Scale::MinorPentatonic => vec![
                Syllable::Do,
                Syllable::Me,
                Syllable::Fa,
                Syllable::So,
                Syllable::Te,
            ],
        };
        assert(r@ =~= self.spec_syllables());
        r
    }

    /// Whether the scale defines a syllable.
    pub fn has_syllable(&self, syllable: Syllable) -> (r: bool)
        ensures
            r == self.defines(syllable),
    {
        let syllables = self.get_syllables();
        let mut i: usize = 0;
        while i < syllables.len()
            invariant
                0 <= i <= syllables@.len(),
                syllables@ == self.spec_syllables(),
                forall|j: int| 0 <= j < i ==> syllables@[j] != syllable,
            decreases syllables@.len() - i,
        {
            if syllables[i] == syllable {
                return true;
            }
            i = i + 1;
        }
        false
    }

    /// Resolves a syllable in a key to a note: the syllable's interval is
    /// added to the tonic and to the octave's start, and the sum is made a
    /// note. Fails when the scale does not define the syllable.
    pub fn calc_note(&self, key: &Key, syllable_note: &SyllableNote) -> (r: Result<
        Note,
        UnknownSyllable,
    >)
        ensures
            r == self.spec_calc_note(*key, *syllable_note),
    {
        if !self.has_syllable(syllable_note.syllable) {
            return Err(UnknownSyllable { scale: *self, syllable: syllable_note.syllable });
        }
        let octave = Semitones::from(syllable_note.octave).0;
        let tonic = Semitones::from(key.tonic).0;
        let interval = syllable_note.syllable.interval() as i32;
        Ok(Note::from(Semitones(octave + tonic + interval)))
    }

    /// The syllable of a one-based scale degree, if the scale has it.
    pub fn degree_syllable(&self, degree: u8) -> (r: Option<Syllable>)
        ensures
            1 <= degree <= self.spec_syllables().len() ==> r == Some(
                self.spec_syllables()[degree - 1],
            ),
            !(1 <= degree <= self.spec_syllables().len()) ==> r == None::<Syllable>,
    {
        let syllables = self.get_syllables();
        if degree >= 1 && (degree as usize) <= syllables.len() {
            Some(syllables[(degree - 1) as usize])
        } else {
            None
        }
    }
}

/// A syllable that its scale defines resolves to a note whose pitch class lies
/// the syllable's interval above the key's tonic, modulo twelve.
pub proof fn lemma_calc_note_interval(scale: Scale, key: Key, sn: SyllableNote)
    requires
        scale.defines(sn.syllable),
    ensures
        scale.spec_calc_note(key, sn) is Ok,
        scale.spec_calc_note(key, sn)->Ok_0.pitch.spec_semitones() == pitch_class(
            key.tonic.spec_semitones() + sn.syllable.spec_interval(),
        ),
{
    let l = sn.octave.spec_level();
    let k = key.tonic.spec_semitones() + sn.syllable.spec_interval();
    assert((12 * l + k) % 12 == k % 12) by (nonlinear_arith)
        requires
            0 <= k,
            0 <= l,
    ;
    lemma_class_spelling(pitch_class(k));
}

/// The canonical spelling of a pitch class has that pitch class.
pub proof fn lemma_class_spelling(c: int)
    requires
        0 <= c < 12,
    ensures
        Pitch::spec_from_class(c).spec_semitones() == c,
{
}

} // verus!
