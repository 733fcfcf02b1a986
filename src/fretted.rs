//! Fretted instruments: fretboards, hand shapes, picks and strums, generic
//! over the number of strings. Four and six strings are supported.

use vstd::prelude::*;
use crate::duration::Duration;
use crate::entry::Entry;
use crate::error::ErrorKind;
use crate::pitch::{Note, Octave, Pitch, PitchName, PitchSign, Semitones};

verus! {

pub const GUITAR_STRING_NUM: usize = 6;

pub const BASS_STRING_NUM: usize = 4;

/// Whether an instrument with `n` strings is supported.
pub open spec fn supported_string_num(n: int) -> bool {
    n == 4 || n == 6
}

pub fn is_supported_string_num(n: usize) -> (r: bool)
    ensures
        r == supported_string_num(n as int),
{
    n == BASS_STRING_NUM || n == GUITAR_STRING_NUM
}

/// A finger of the fretting hand.
#[derive(Copy, Clone, Debug, PartialEq, Eq, Structural, Hash)]
pub enum Finger {
    Thumb,
    Index,
    Middle,
    Ring,
    Pinky,
}

/// Tuning, capo and fret range of an instrument with `N` strings; string 0
/// is the highest.
#[derive(Clone, Debug, PartialEq, Eq)]
pub struct Fretboard<const N: usize> {
    pub tuning: Vec<Note>,
    pub fret_num: u8,
    pub capo: u8,
}

/// Per string: `None` when unplayed, `Some(0)` when open, else the fret; and
/// an optional finger.
#[derive(Clone, Debug, PartialEq, Eq)]
pub struct HandShape<const N: usize> {
    pub frets: Vec<Option<u8>>,
    pub fingers: Vec<Option<Finger>>,
}

/// Strings plucked one by one, by index.
#[derive(Clone, Debug, PartialEq, Eq)]
pub struct PickEvent {
    pub strings: Vec<u8>,
}

/// Strings struck together, by index.
#[derive(Clone, Debug, PartialEq, Eq)]
pub struct StrumEvent {
    pub strings: Vec<u8>,
}

#[derive(Clone, Debug, PartialEq, Eq)]
pub enum FrettedEntry<const N: usize> {
    Shape(HandShape<N>, Duration),
    Pick(PickEvent, Duration),
    Strum(StrumEvent, Duration),
    Fretboard(Fretboard<N>),
}

pub type Fretboard6 = Fretboard<6>;

pub type Fretboard4 = Fretboard<4>;

pub type HandShape6 = HandShape<6>;

pub type HandShape4 = HandShape<4>;

pub type FrettedEntry6 = FrettedEntry<6>;

pub type FrettedEntry4 = FrettedEntry<4>;

/// Every index names one of `n` strings.
pub open spec fn strings_in_range(strings: Seq<u8>, n: int) -> bool {
    forall|i: int| 0 <= i < strings.len() ==> (#[trigger] strings[i] as int) < n
}

fn check_strings(strings: &Vec<u8>, n: usize) -> (r: bool)
    ensures
        r == strings_in_range(strings@, n as int),
{
    let mut i: usize = 0;
    while i < strings.len()
        invariant
            0 <= i <= strings@.len(),
            strings_in_range(strings@.subrange(0, i as int), n as int),
        decreases strings@.len() - i,
    {
        if strings[i] as usize >= n {
            assert(strings@.subrange(0, i as int + 1)[i as int] == strings@[i as int]);
            assert(!strings_in_range(strings@, n as int));
            return false;
        }
        assert forall|j: int| 0 <= j < i + 1 implies (#[trigger] strings@.subrange(
            0,
            i as int + 1,
        )[j] as int) < n as int by {
            if j < i {
                assert(strings@.subrange(0, i as int + 1)[j] == strings@.subrange(0, i as int)[j]);
            }
        }
        i = i + 1;
    }
    assert(strings@.subrange(0, i as int) =~= strings@);
    true
}

/// Standard tuning of a six-string guitar, highest string first.
pub open spec fn spec_guitar_tuning() -> Seq<Note> {
    seq![
        note_of(Octave::P4, PitchName::E),
        note_of(Octave::P3, PitchName::B),
        note_of(Octave::P3, PitchName::G),
        note_of(Octave::P3, PitchName::D),
        note_of(Octave::P2, PitchName::A),
        note_of(Octave::P2, PitchName::E),
    ]
}

/// Standard tuning of a four-string bass, highest string first.
pub open spec fn spec_bass_tuning() -> Seq<Note> {
    seq![
        note_of(Octave::P2, PitchName::G),
        note_of(Octave::P2, PitchName::D),
        note_of(Octave::P1, PitchName::A),
        note_of(Octave::P1, PitchName::E),
    ]
}

pub open spec fn note_of(octave: Octave, name: PitchName) -> Note {
    Note { octave, pitch: Pitch { name, sign: PitchSign::Natural } }
}

fn natural(octave: Octave, name: PitchName) -> (r: Note)
    ensures
        r == note_of(octave, name),
{
    Note { octave, pitch: Pitch { name, sign: PitchSign::Natural } }
}

impl<const N: usize> Fretboard<N> {
    pub open spec fn wf(&self) -> bool {
        &&& supported_string_num(N as int)
        &&& self.tuning@.len() == N
        &&& self.capo <= self.fret_num
    }

    /// A fretboard, when `N` is supported, the tuning names `N` strings and
    /// the capo lies within the fret range.
    pub fn new(tuning: Vec<Note>, fret_num: u8, capo: u8) -> (r: Result<
        Fretboard<N>,
        ErrorKind,
    >)
        ensures
            (supported_string_num(N as int) && tuning@.len() == N && capo <= fret_num) ==> (
            r matches Ok(f) && f.tuning@ == tuning@ && f.fret_num == fret_num && f.capo == capo),
            !(supported_string_num(N as int) && tuning@.len() == N && capo <= fret_num) ==> r
                == Err::<Fretboard<N>, ErrorKind>(ErrorKind::UnsupportedConfiguration),
    {
        if is_supported_string_num(N) && tuning.len() == N && capo <= fret_num {
            Ok(Fretboard { tuning, fret_num, capo })
        } else {
            Err(ErrorKind::UnsupportedConfiguration)
        }
    }

    /// The standard tuning for `N` strings, without capo, with 22 frets.
    pub fn standard() -> (r: Result<Fretboard<N>, ErrorKind>)
        ensures
            N == 6 ==> (r matches Ok(f) && f.tuning@ == spec_guitar_tuning() && f.capo == 0
                && f.fret_num == 22),
            N == 4 ==> (r matches Ok(f) && f.tuning@ == spec_bass_tuning() && f.capo == 0
                && f.fret_num == 22),
            !supported_string_num(N as int) ==> r == Err::<Fretboard<N>, ErrorKind>(
                ErrorKind::UnsupportedConfiguration,
            ),
    {
        let tuning = if N == GUITAR_STRING_NUM {
            let t = vec![
                natural(Octave::P4, PitchName::E),
                natural(Octave::P3, PitchName::B),
                natural(Octave::P3, PitchName::G),
                natural(Octave::P3, PitchName::D),
                natural(Octave::P2, PitchName::A),
                natural(Octave::P2, PitchName::E),
            ];
            assert(t@ =~= spec_guitar_tuning());
            t
        } else {
            let t = vec![
                natural(Octave::P2, PitchName::G),
                natural(Octave::P2, PitchName::D),
                natural(Octave::P1, PitchName::A),
                natural(Octave::P1, PitchName::E),
            ];
            assert(t@ =~= spec_bass_tuning());
            t
        };
        Fretboard::new(tuning, 22, 0)
    }

    /// The note sounded on a string at a fret: the open note raised by the
    /// fret and by the capo, one semitone each.
    pub open spec fn spec_fret_note(&self, string: int, fret: int) -> Note {
        Note::spec_from_semitones(
            self.tuning@[string].spec_semitones() + self.capo as int + fret,
        )
    }

    /// The note on a string at a fret counted from the capo; fails when the
    /// string does not exist or the fret lies past the fret range.
    pub fn calc_fret_note(&self, string: usize, fret: u8) -> (r: Result<Note, ErrorKind>)
        requires
            self.wf(),
        ensures
            (string < N && self.capo as int + fret as int <= self.fret_num as int) ==> r
                == Ok::<Note, ErrorKind>(self.spec_fret_note(string as int, fret as int)),
            !(string < N && self.capo as int + fret as int <= self.fret_num as int) ==> r
                == Err::<Note, ErrorKind>(ErrorKind::UnsupportedConfiguration),
    {
        if string >= self.tuning.len() || self.capo as u16 + fret as u16 > self.fret_num as u16 {
            return Err(ErrorKind::UnsupportedConfiguration);
        }
        let open = Semitones::from(self.tuning[string]).0;
        Ok(Note::from(Semitones(open + self.capo as i32 + fret as i32)))
    }
}

impl<const N: usize> HandShape<N> {
    pub open spec fn wf(&self) -> bool {
        &&& supported_string_num(N as int)
        &&& self.frets@.len() == N
        &&& self.fingers@.len() == N
    }

    /// A hand shape, when `N` is supported and both lists name `N` strings.
    pub fn new(frets: Vec<Option<u8>>, fingers: Vec<Option<Finger>>) -> (r: Result<
        HandShape<N>,
        ErrorKind,
    >)
        ensures
            (supported_string_num(N as int) && frets@.len() == N && fingers@.len() == N) ==> (
            r matches Ok(s) && s.frets@ == frets@ && s.fingers@ == fingers@),
            !(supported_string_num(N as int) && frets@.len() == N && fingers@.len() == N) ==> r
                == Err::<HandShape<N>, ErrorKind>(ErrorKind::UnsupportedConfiguration),
    {
        if is_supported_string_num(N) && frets.len() == N && fingers.len() == N {
            Ok(HandShape { frets, fingers })
        } else {
            Err(ErrorKind::UnsupportedConfiguration)
        }
    }

    /// A hand shape with no finger labels.
    pub fn from_frets(frets: Vec<Option<u8>>) -> (r: Result<HandShape<N>, ErrorKind>)
        ensures
            (supported_string_num(N as int) && frets@.len() == N) ==> (r matches Ok(s)
                && s.frets@ == frets@ && s.fingers@ == Seq::new(
                N as nat,
                |i: int| None::<Finger>,
            )),
            !(supported_string_num(N as int) && frets@.len() == N) ==> r == Err::<
                HandShape<N>,
                ErrorKind,
            >(ErrorKind::UnsupportedConfiguration),
    {
        let mut fingers: Vec<Option<Finger>> = Vec::new();
        let mut i: usize = 0;
        while i < frets.len()
            invariant
                0 <= i <= frets@.len(),
                fingers@ == Seq::new(i as nat, |j: int| None::<Finger>),
            decreases frets@.len() - i,
        {
            fingers.push(None);
            i = i + 1;
            assert(fingers@ =~= Seq::new(i as nat, |j: int| None::<Finger>));
        }
        HandShape::new(frets, fingers)
    }

    /// The fret on one string; fails when the string does not exist.
    pub fn string_fret(&self, string: usize) -> (r: Result<Option<u8>, ErrorKind>)
        ensures
            string < self.frets@.len() ==> r == Ok::<Option<u8>, ErrorKind>(
                self.frets@[string as int],
            ),
            string >= self.frets@.len() ==> r == Err::<Option<u8>, ErrorKind>(
                ErrorKind::UnsupportedConfiguration,
            ),
    {
        if string < self.frets.len() {
            Ok(self.frets[string])
        } else {
            Err(ErrorKind::UnsupportedConfiguration)
        }
    }

    /// The finger on one string; fails when the string does not exist.
    pub fn string_finger(&self, string: usize) -> (r: Result<Option<Finger>, ErrorKind>)
        ensures
            string < self.fingers@.len() ==> r == Ok::<Option<Finger>, ErrorKind>(
                self.fingers@[string as int],
            ),
            string >= self.fingers@.len() ==> r == Err::<Option<Finger>, ErrorKind>(
                ErrorKind::UnsupportedConfiguration,
            ),
    {
        if string < self.fingers.len() {
            Ok(self.fingers[string])
        } else {
            Err(ErrorKind::UnsupportedConfiguration)
        }
    }
}

impl PickEvent {
    pub fn new(strings: Vec<u8>) -> (r: PickEvent)
        ensures
            r.strings@ == strings@,
    {
        PickEvent { strings }
    }
}

impl StrumEvent {
    pub fn new(strings: Vec<u8>) -> (r: StrumEvent)
        ensures
            r.strings@ == strings@,
    {
        StrumEvent { strings }
    }
}

impl<const N: usize> FrettedEntry<N> {
    pub open spec fn wf(&self) -> bool {
        match self {
            FrettedEntry::Shape(s, _) => s.wf(),
            FrettedEntry::Pick(p, _) => supported_string_num(N as int) && strings_in_range(
                p.strings@,
                N as int,
            ),
            FrettedEntry::Strum(s, _) => supported_string_num(N as int) && strings_in_range(
                s.strings@,
                N as int,
            ),
            FrettedEntry::Fretboard(f) => f.wf(),
        }
    }

    pub open spec fn spec_duration(&self) -> Duration {
        match self {
            FrettedEntry::Shape(_, d) => *d,
            FrettedEntry::Pick(_, d) => *d,
            FrettedEntry::Strum(_, d) => *d,
            FrettedEntry::Fretboard(_) => Duration::Zero,
        }
    }

    /// A pick entry, when every index names one of the `N` strings.
    pub fn new_pick(pick: PickEvent, duration: Duration) -> (r: Result<
        FrettedEntry<N>,
        ErrorKind,
    >)
        ensures
            (supported_string_num(N as int) && strings_in_range(pick.strings@, N as int)) ==> (
            r matches Ok(FrettedEntry::Pick(p, d)) && p.strings@ == pick.strings@ && d
                == duration),
            !(supported_string_num(N as int) && strings_in_range(pick.strings@, N as int)) ==> r
                == Err::<FrettedEntry<N>, ErrorKind>(ErrorKind::UnsupportedConfiguration),
    {
        if is_supported_string_num(N) && check_strings(&pick.strings, N) {
            Ok(FrettedEntry::Pick(pick, duration))
        } else {
            Err(ErrorKind::UnsupportedConfiguration)
        }
    }

    /// A strum entry, when every index names one of the `N` strings.
    pub fn new_strum(strum: StrumEvent, duration: Duration) -> (r: Result<
        FrettedEntry<N>,
        ErrorKind,
    >)
        ensures
            (supported_string_num(N as int) && strings_in_range(strum.strings@, N as int)) ==> (
            r matches Ok(FrettedEntry::Strum(s, d)) && s.strings@ == strum.strings@ && d
                == duration),
            !(supported_string_num(N as int) && strings_in_range(strum.strings@, N as int))
                ==> r == Err::<FrettedEntry<N>, ErrorKind>(ErrorKind::UnsupportedConfiguration),
    {
        if is_supported_string_num(N) && check_strings(&strum.strings, N) {
            Ok(FrettedEntry::Strum(strum, duration))
        } else {
            Err(ErrorKind::UnsupportedConfiguration)
        }
    }

    pub fn duration(&self) -> (r: Duration)
        ensures
            r == self.spec_duration(),
    {
        match self {
            FrettedEntry::Shape(_, d) => *d,
            FrettedEntry::Pick(_, d) => *d,
            FrettedEntry::Strum(_, d) => *d,
            FrettedEntry::Fretboard(_) => Duration::Zero,
        }
    }

    pub fn is_shape(&self) -> (r: bool)
        ensures
            r == (*self is Shape),
    {
        matches!(self, FrettedEntry::Shape(..))
    }

    pub fn is_pick(&self) -> (r: bool)
        ensures
            r == (*self is Pick),
    {
        matches!(self, FrettedEntry::Pick(..))
    }

    pub fn is_strum(&self) -> (r: bool)
        ensures
            r == (*self is Strum),
    {
        matches!(self, FrettedEntry::Strum(..))
    }

    pub fn is_fretboard(&self) -> (r: bool)
        ensures
            r == (*self is Fretboard),
    {
        matches!(self, FrettedEntry::Fretboard(..))
    }
}

impl<const N: usize> Entry for FrettedEntry<N> {
    open spec fn spec_duration(&self) -> Duration {
        FrettedEntry::<N>::spec_duration(self)
    }

    fn duration(&self) -> (r: Duration) {
        FrettedEntry::<N>::duration(self)
    }
}

} // verus!
