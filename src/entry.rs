//! The closed set of primitive notation events.

use vstd::prelude::*;
use crate::duration::{Duration, Signature, Tempo};
use crate::pitch::Note;
use crate::scale::{Syllable, SyllableNote};

verus! {

/// Anything that occupies time in a line of notation.
pub trait Entry {
    spec fn spec_duration(&self) -> Duration;

    fn duration(&self) -> (r: Duration)
        ensures
            r == self.spec_duration(),
    ;
}

/// A solfege degree as written, with the note it resolved to under the key
/// and scale in force where it was written.
#[derive(Copy, Clone, Debug, PartialEq, Eq, Structural, Hash)]
pub struct Solfege {
    pub syllable_note: SyllableNote,
    pub note: Note,
}

/// A chord named by the scale degree of its root.
#[derive(Copy, Clone, Debug, PartialEq, Eq, Structural, Hash)]
pub struct Chord {
    pub root: Syllable,
    pub minor: bool,
}

/// A roman-numeral harmony symbol, named by the scale degree of its root.
#[derive(Copy, Clone, Debug, PartialEq, Eq, Structural, Hash)]
pub struct Roman {
    pub root: Syllable,
    pub minor: bool,
}

#[derive(Copy, Clone, Debug, PartialEq, Eq, Structural, Hash)]
pub enum CoreEntry {
    Rest(Duration),
    Note(Note, Duration),
    Solfege(Solfege, Duration),
    Chord(Chord, Duration),
    Roman(Roman, Duration),
    Signature(Signature),
    Tempo(Tempo),
}

impl CoreEntry {
    /// The carried duration; signatures and tempos are instantaneous.
    pub open spec fn spec_duration(self) -> Duration {
        match self {
            CoreEntry::Rest(d) => d,
            CoreEntry::Note(_, d) => d,
            CoreEntry::Solfege(_, d) => d,
            CoreEntry::Chord(_, d) => d,
            CoreEntry::Roman(_, d) => d,
            CoreEntry::Signature(_) => Duration::Zero,
            CoreEntry::Tempo(_) => Duration::Zero,
        }
    }

    pub fn duration(&self) -> (r: Duration)
        ensures
            r == self.spec_duration(),
    {
        match self {
            CoreEntry::Rest(duration) => *duration,
            CoreEntry::Note(_, duration) => *duration,
            CoreEntry::Solfege(_, duration) => *duration,
            CoreEntry::Chord(_, duration) => *duration,
            CoreEntry::Roman(_, duration) => *duration,
            CoreEntry::Signature(_) => Duration::Zero,
            CoreEntry::Tempo(_) => Duration::Zero,
        }
    }

    pub fn is_rest(&self) -> (r: bool)
        ensures
            r == (*self is Rest),
    {
        matches!(self, CoreEntry::Rest(..))
    }

    pub fn is_note(&self) -> (r: bool)
        ensures
            r == (*self is Note),
    {
        matches!(self, CoreEntry::Note(..))
    }

    pub fn is_solfege(&self) -> (r: bool)
        ensures
            r == (*self is Solfege),
    {
        matches!(self, CoreEntry::Solfege(..))
    }

    pub fn is_chord(&self) -> (r: bool)
        ensures
            r == (*self is Chord),
    {
        matches!(self, CoreEntry::Chord(..))
    }

    pub fn is_roman(&self) -> (r: bool)
        ensures
            r == (*self is Roman),
    {
        matches!(self, CoreEntry::Roman(..))
    }

    pub fn is_signature(&self) -> (r: bool)
        ensures
            r == (*self is Signature),
    {
        matches!(self, CoreEntry::Signature(..))
    }

    pub fn is_tempo(&self) -> (r: bool)
        ensures
            r == (*self is Tempo),
    {
        matches!(self, CoreEntry::Tempo(..))
    }

    pub fn as_rest(&self) -> (r: Option<&Duration>)
        ensures
            r is Some <==> *self is Rest,
            r is Some ==> *r->Some_0 == self->Rest_0,
    {
        if let CoreEntry::Rest(v) = self {
            Some(v)
        } else {
            None
        }
    }

    pub fn as_note(&self) -> (r: Option<&Note>)
        ensures
            r is Some <==> *self is Note,
            r is Some ==> *r->Some_0 == self->Note_0,
    {
        if let CoreEntry::Note(v, _) = self {
            Some(v)
        } else {
            None
        }
    }

    pub fn as_solfege(&self) -> (r: Option<&Solfege>)
        ensures
            r is Some <==> *self is Solfege,
            r is Some ==> *r->Some_0 == self->Solfege_0,
    {
        if let CoreEntry::Solfege(v, _) = self {
            Some(v)
        } else {
            None
        }
    }

    pub fn as_chord(&self) -> (r: Option<&Chord>)
        ensures
            r is Some <==> *self is Chord,
            r is Some ==> *r->Some_0 == self->Chord_0,
    {
        if let CoreEntry::Chord(v, _) = self {
            Some(v)
        } else {
            None
        }
    }

    pub fn as_roman(&self) -> (r: Option<&Roman>)
        ensures
            r is Some <==> *self is Roman,
            r is Some ==> *r->Some_0 == self->Roman_0,
    {
        if let CoreEntry::Roman(v, _) = self {
            Some(v)
        } else {
            None
        }
    }
}

impl Entry for CoreEntry {
    open spec fn spec_duration(&self) -> Duration {
        CoreEntry::spec_duration(*self)
    }

    fn duration(&self) -> (r: Duration) {
        CoreEntry::duration(self)
    }
}

impl From<Duration> for CoreEntry {
    fn from(v: Duration) -> (r: CoreEntry) {
        CoreEntry::Rest(v)
    }
}

impl vstd::std_specs::convert::FromSpecImpl<Duration> for CoreEntry {
    open spec fn obeys_from_spec() -> bool {
        true
    }

    open spec fn from_spec(v: Duration) -> CoreEntry {
        CoreEntry::Rest(v)
    }
}

impl From<(Note, Duration)> for CoreEntry {
    fn from(v: (Note, Duration)) -> (r: CoreEntry) {
        CoreEntry::Note(v.0, v.1)
    }
}

impl vstd::std_specs::convert::FromSpecImpl<(Note, Duration)> for CoreEntry {
    open spec fn obeys_from_spec() -> bool {
        true
    }

    open spec fn from_spec(v: (Note, Duration)) -> CoreEntry {
        CoreEntry::Note(v.0, v.1)
    }
}

impl From<(Solfege, Duration)> for CoreEntry {
    fn from(v: (Solfege, Duration)) -> (r: CoreEntry) {
        CoreEntry::Solfege(v.0, v.1)
    }
}

impl vstd::std_specs::convert::FromSpecImpl<(Solfege, Duration)> for CoreEntry {
    open spec fn obeys_from_spec() -> bool {
        true
    }

    open spec fn from_spec(v: (Solfege, Duration)) -> CoreEntry {
        CoreEntry::Solfege(v.0, v.1)
    }
}

impl From<(Chord, Duration)> for CoreEntry {
    fn from(v: (Chord, Duration)) -> (r: CoreEntry) {
        CoreEntry::Chord(v.0, v.1)
    }
}

impl vstd::std_specs::convert::FromSpecImpl<(Chord, Duration)> for CoreEntry {
    open spec fn obeys_from_spec() -> bool {
        true
    }

    open spec fn from_spec(v: (Chord, Duration)) -> CoreEntry {
        CoreEntry::Chord(v.0, v.1)
    }
}

impl From<(Roman, Duration)> for CoreEntry {
    fn from(v: (Roman, Duration)) -> (r: CoreEntry) {
        CoreEntry::Roman(v.0, v.1)
    }
}

impl vstd::std_specs::convert::FromSpecImpl<(Roman, Duration)> for CoreEntry {
    open spec fn obeys_from_spec() -> bool {
        true
    }

    open spec fn from_spec(v: (Roman, Duration)) -> CoreEntry {
        CoreEntry::Roman(v.0, v.1)
    }
}

impl From<Signature> for CoreEntry {
    fn from(v: Signature) -> (r: CoreEntry) {
        CoreEntry::Signature(v)
    }
}

impl vstd::std_specs::convert::FromSpecImpl<Signature> for CoreEntry {
    open spec fn obeys_from_spec() -> bool {
        true
    }

    open spec fn from_spec(v: Signature) -> CoreEntry {
        CoreEntry::Signature(v)
    }
}

impl From<Tempo> for CoreEntry {
    fn from(v: Tempo) -> (r: CoreEntry) {
        CoreEntry::Tempo(v)
    }
}

impl vstd::std_specs::convert::FromSpecImpl<Tempo> for CoreEntry {
    open spec fn obeys_from_spec() -> bool {
        true
    }

    open spec fn from_spec(v: Tempo) -> CoreEntry {
        CoreEntry::Tempo(v)
    }
}

} // verus!
