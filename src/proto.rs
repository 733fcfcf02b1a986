//! The top-level entry union: core events, fretted events on four or six
//! strings, and zero-length annotations.

use vstd::prelude::*;
use crate::duration::Duration;
use crate::entry::{CoreEntry, Entry};
use crate::fretted::{Finger, FrettedEntry, FrettedEntry4, FrettedEntry6};
use crate::pitch::Note;

verus! {

#[derive(Clone, Debug, PartialEq, Eq)]
pub enum ProtoEntry {
    Mark(String),
    Core(CoreEntry),
    Word(String, Duration),
    Fretted6(FrettedEntry6),
    Fretted4(FrettedEntry4),
    Extra(String, String),
}

/// What an entry holds, as mathematical values.
pub enum EntryModel {
    Mark(Seq<char>),
    Core(CoreEntry),
    Word(Seq<char>, Duration),
    Shape { strings: nat, frets: Seq<Option<u8>>, fingers: Seq<Option<Finger>>, duration: Duration },
    Pick { strings: nat, picks: Seq<u8>, duration: Duration },
    Strum { strings: nat, picks: Seq<u8>, duration: Duration },
    Fretboard { strings: nat, tuning: Seq<Note>, fret_num: u8, capo: u8 },
    Extra(Seq<char>, Seq<char>),
}

impl<const N: usize> View for FrettedEntry<N> {
    type V = EntryModel;

    open spec fn view(&self) -> EntryModel {
        match self {
            FrettedEntry::Shape(s, d) => EntryModel::Shape {
                strings: N as nat,
                frets: s.frets@,
                fingers: s.fingers@,
                duration: *d,
            },
            FrettedEntry::Pick(p, d) => EntryModel::Pick {
                strings: N as nat,
                picks: p.strings@,
                duration: *d,
            },
            FrettedEntry::Strum(s, d) => EntryModel::Strum {
                strings: N as nat,
                picks: s.strings@,
                duration: *d,
            },
            FrettedEntry::Fretboard(f) => EntryModel::Fretboard {
                strings: N as nat,
                tuning: f.tuning@,
                fret_num: f.fret_num,
                capo: f.capo,
            },
        }
    }
}

impl View for ProtoEntry {
    type V = EntryModel;

    open spec fn view(&self) -> EntryModel {
        match self {
            ProtoEntry::Mark(s) => EntryModel::Mark(s@),
            ProtoEntry::Core(e) => EntryModel::Core(*e),
            ProtoEntry::Word(s, d) => EntryModel::Word(s@, *d),
            ProtoEntry::Fretted6(e) => e@,
            ProtoEntry::Fretted4(e) => e@,
            ProtoEntry::Extra(k, v) => EntryModel::Extra(k@, v@),
        }
    }
}

impl ProtoEntry {
    /// Annotations take no time; every other entry takes what it carries.
    pub open spec fn spec_duration(&self) -> Duration {
        match self {
            ProtoEntry::Mark(_) => Duration::Zero,
            ProtoEntry::Core(e) => e.spec_duration(),
            ProtoEntry::Word(_, d) => *d,
            ProtoEntry::Fretted6(e) => e.spec_duration(),
            ProtoEntry::Fretted4(e) => e.spec_duration(),
            ProtoEntry::Extra(_, _) => Duration::Zero,
        }
    }

    pub fn duration(&self) -> (r: Duration)
        ensures
            r == self.spec_duration(),
    {
        match self {
            ProtoEntry::Mark(_) => Duration::Zero,
            ProtoEntry::Core(entry) => entry.duration(),
            ProtoEntry::Word(_, duration) => *duration,
            ProtoEntry::Fretted6(entry) => entry.duration(),
            ProtoEntry::Fretted4(entry) => entry.duration(),
            ProtoEntry::Extra(_, _) => Duration::Zero,
        }
    }

    pub fn is_mark(&self) -> (r: bool)
        ensures
            r == (*self is Mark),
    {
        matches!(self, ProtoEntry::Mark(..))
    }

    /// A mark with exactly this text.
    pub fn is_mark_string(&self, val: &String) -> (r: bool)
        ensures
            r == (*self is Mark && self->Mark_0@ == val@),
    {
        if let ProtoEntry::Mark(v) = self {
            v.eq(val)
        } else {
            false
        }
    }

    /// A mark with exactly this text.
    pub fn is_mark_str(&self, val: &str) -> (r: bool)
        ensures
            r == (*self is Mark && self->Mark_0@ == val@),
    {
        if let ProtoEntry::Mark(v) = self {
            let owned = val.to_owned();
            *v == owned
        } else {
            false
        }
    }

    pub fn is_core(&self) -> (r: bool)
        ensures
            r == (*self is Core),
    {
        matches!(self, ProtoEntry::Core(..))
    }

    pub fn is_word(&self) -> (r: bool)
        ensures
            r == (*self is Word),
    {
        matches!(self, ProtoEntry::Word(..))
    }

    pub fn as_mark(&self) -> (r: Option<&String>)
        ensures
            r is Some <==> *self is Mark,
            r is Some ==> r->Some_0@ == self->Mark_0@,
    {
        if let ProtoEntry::Mark(v) = self {
            Some(v)
        } else {
            None
        }
    }

    pub fn as_core(&self) -> (r: Option<&CoreEntry>)
        ensures
            r is Some <==> *self is Core,
            r is Some ==> *r->Some_0 == self->Core_0,
    {
        if let ProtoEntry::Core(v) = self {
            Some(v)
        } else {
            None
        }
    }

    /// The core entry inside, or the entry itself, unchanged, when it is of
    /// another kind.
    pub fn try_into_core(self) -> (r: Result<CoreEntry, ProtoEntry>)
        ensures
            self is Core ==> r == Ok::<CoreEntry, ProtoEntry>(self->Core_0),
            !(self is Core) ==> r == Err::<CoreEntry, ProtoEntry>(self),
    {
        if let ProtoEntry::Core(v) = self {
            Ok(v)
        } else {
            Err(self)
        }
    }

    pub fn is_fretted6(&self) -> (r: bool)
        ensures
            r == (*self is Fretted6),
    {
        matches!(self, ProtoEntry::Fretted6(..))
    }

    pub fn as_fretted6(&self) -> (r: Option<&FrettedEntry6>)
        ensures
            r is Some <==> *self is Fretted6,
            r is Some ==> *r->Some_0 == self->Fretted6_0,
    {
        if let ProtoEntry::Fretted6(v) = self {
            Some(v)
        } else {
            None
        }
    }

    /// The six-string entry inside, or the entry itself, unchanged.
    pub fn try_into_fretted6(self) -> (r: Result<FrettedEntry6, ProtoEntry>)
        ensures
            self is Fretted6 ==> r == Ok::<FrettedEntry6, ProtoEntry>(self->Fretted6_0),
            !(self is Fretted6) ==> r == Err::<FrettedEntry6, ProtoEntry>(self),
    {
        if let ProtoEntry::Fretted6(v) = self {
            Ok(v)
        } else {
            Err(self)
        }
    }

    pub fn is_fretted4(&self) -> (r: bool)
        ensures
            r == (*self is Fretted4),
    {
        matches!(self, ProtoEntry::Fretted4(..))
    }

    pub fn as_fretted4(&self) -> (r: Option<&FrettedEntry4>)
        ensures
            r is Some <==> *self is Fretted4,
            r is Some ==> *r->Some_0 == self->Fretted4_0,
    {
        if let ProtoEntry::Fretted4(v) = self {
            Some(v)
        } else {
            None
        }
    }

    /// The four-string entry inside, or the entry itself, unchanged.
    pub fn try_into_fretted4(self) -> (r: Result<FrettedEntry4, ProtoEntry>)
        ensures
            self is Fretted4 ==> r == Ok::<FrettedEntry4, ProtoEntry>(self->Fretted4_0),
            !(self is Fretted4) ==> r == Err::<FrettedEntry4, ProtoEntry>(self),
    {
        if let ProtoEntry::Fretted4(v) = self {
            Ok(v)
        } else {
            Err(self)
        }
    }

    pub fn is_fretted(&self) -> (r: bool)
        ensures
            r == (*self is Fretted6 || *self is Fretted4),
    {
        match self {
            ProtoEntry::Mark(_) => false,
            ProtoEntry::Core(_) => false,
            ProtoEntry::Word(_, _) => false,
            ProtoEntry::Fretted6(_) => true,
            ProtoEntry::Fretted4(_) => true,
            ProtoEntry::Extra(_, _) => false,
        }
    }

    pub fn is_fretted_pick(&self) -> (r: bool)
        ensures
            r == ((*self is Fretted6 && self->Fretted6_0 is Pick) || (*self is Fretted4
                && self->Fretted4_0 is Pick)),
    {
        match self {
            ProtoEntry::Mark(_) => false,
            ProtoEntry::Core(_) => false,
            ProtoEntry::Word(_, _) => false,
            ProtoEntry::Fretted6(x) => x.is_pick(),
            ProtoEntry::Fretted4(x) => x.is_pick(),
            ProtoEntry::Extra(_, _) => false,
        }
    }

    pub fn is_fretted_strum(&self) -> (r: bool)
        ensures
            r == ((*self is Fretted6 && self->Fretted6_0 is Strum) || (*self is Fretted4
                && self->Fretted4_0 is Strum)),
    {
        match self {
            ProtoEntry::Mark(_) => false,
            ProtoEntry::Core(_) => false,
            ProtoEntry::Word(_, _) => false,
            ProtoEntry::Fretted6(x) => x.is_strum(),
            ProtoEntry::Fretted4(x) => x.is_strum(),
            ProtoEntry::Extra(_, _) => false,
        }
    }

    pub fn is_fretted_shape(&self) -> (r: bool)
        ensures
            r == ((*self is Fretted6 && self->Fretted6_0 is Shape) || (*self is Fretted4
                && self->Fretted4_0 is Shape)),
    {
        match self {
            ProtoEntry::Mark(_) => false,
            ProtoEntry::Core(_) => false,
            ProtoEntry::Word(_, _) => false,
            ProtoEntry::Fretted6(x) => x.is_shape(),
            ProtoEntry::Fretted4(x) => x.is_shape(),
            ProtoEntry::Extra(_, _) => false,
        }
    }

    pub fn is_fretted_fretboard(&self) -> (r: bool)
        ensures
            r == ((*self is Fretted6 && self->Fretted6_0 is Fretboard) || (*self is Fretted4
                && self->Fretted4_0 is Fretboard)),
    {
        match self {
            ProtoEntry::Mark(_) => false,
            ProtoEntry::Core(_) => false,
            ProtoEntry::Word(_, _) => false,
            ProtoEntry::Fretted6(x) => x.is_fretboard(),
            ProtoEntry::Fretted4(x) => x.is_fretboard(),
            ProtoEntry::Extra(_, _) => false,
        }
    }
}

impl Entry for ProtoEntry {
    open spec fn spec_duration(&self) -> Duration {
        ProtoEntry::spec_duration(self)
    }

    fn duration(&self) -> (r: Duration) {
        ProtoEntry::duration(self)
    }
}

impl From<String> for ProtoEntry {
    fn from(v: String) -> (r: ProtoEntry) {
        ProtoEntry::Mark(v)
    }
}

impl vstd::std_specs::convert::FromSpecImpl<String> for ProtoEntry {
    open spec fn obeys_from_spec() -> bool {
        true
    }

    open spec fn from_spec(v: String) -> ProtoEntry {
        ProtoEntry::Mark(v)
    }
}

impl From<(String, Duration)> for ProtoEntry {
    fn from(v: (String, Duration)) -> (r: ProtoEntry) {
        ProtoEntry::Word(v.0, v.1)
    }
}

impl vstd::std_specs::convert::FromSpecImpl<(String, Duration)> for ProtoEntry {
    open spec fn obeys_from_spec() -> bool {
        true
    }

    open spec fn from_spec(v: (String, Duration)) -> ProtoEntry {
        ProtoEntry::Word(v.0, v.1)
    }
}

impl From<(String, String)> for ProtoEntry {
    fn from(v: (String, String)) -> (r: ProtoEntry) {
        ProtoEntry::Extra(v.0, v.1)
    }
}

impl vstd::std_specs::convert::FromSpecImpl<(String, String)> for ProtoEntry {
    open spec fn obeys_from_spec() -> bool {
        true
    }

    open spec fn from_spec(v: (String, String)) -> ProtoEntry {
        ProtoEntry::Extra(v.0, v.1)
    }
}

impl From<CoreEntry> for ProtoEntry {
    fn from(v: CoreEntry) -> (r: ProtoEntry) {
        ProtoEntry::Core(v)
    }
}

impl vstd::std_specs::convert::FromSpecImpl<CoreEntry> for ProtoEntry {
    open spec fn obeys_from_spec() -> bool {
        true
    }

    open spec fn from_spec(v: CoreEntry) -> ProtoEntry {
        ProtoEntry::Core(v)
    }
}

impl From<FrettedEntry6> for ProtoEntry {
    fn from(v: FrettedEntry6) -> (r: ProtoEntry) {
        ProtoEntry::Fretted6(v)
    }
}

impl vstd::std_specs::convert::FromSpecImpl<FrettedEntry6> for ProtoEntry {
    open spec fn obeys_from_spec() -> bool {
        true
    }

    open spec fn from_spec(v: FrettedEntry6) -> ProtoEntry {
        ProtoEntry::Fretted6(v)
    }
}

impl From<FrettedEntry4> for ProtoEntry {
    fn from(v: FrettedEntry4) -> (r: ProtoEntry) {
        ProtoEntry::Fretted4(v)
    }
}

impl vstd::std_specs::convert::FromSpecImpl<FrettedEntry4> for ProtoEntry {
    open spec fn obeys_from_spec() -> bool {
        true
    }

    open spec fn from_spec(v: FrettedEntry4) -> ProtoEntry {
        ProtoEntry::Fretted4(v)
    }
}

} // verus!
