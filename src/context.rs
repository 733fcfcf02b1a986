//! The parsing context: the key, scale, duration, octave and string count in
//! force while a source is parsed, and the directives that change them.
//!
//! A context belongs to one parse: it is passed to the parser, which changes
//! it only where a directive says so.

use vstd::prelude::*;
use crate::duration::{Duration, DurationTweak, Units};
use crate::error::{ErrorKind, ParseError};
use crate::fretted::{supported_string_num, GUITAR_STRING_NUM, is_supported_string_num};
use crate::pitch::{pitch_class, Note, Octave, Pitch, PitchName, PitchSign};
use crate::scale::{lemma_calc_note_interval, Key, Scale, Syllable, SyllableNote};
use crate::text::{
    ascii_range, find_byte, find_byte_in, find_token_end, is_digit, lemma_digit_run, lemma_find_byte,
    matches_word, parse_number, spec_number, token_end,
};

verus! {

pub const DOLLAR: u8 = 0x24;

pub const EQUALS: u8 = 0x3d;

pub const SHARP_MARK: u8 = 0x23;

pub const FLAT_MARK: u8 = 0x62;

pub const DOT: u8 = 0x2e;

pub const DIGIT_ZERO: u8 = 0x30;

pub const DIGIT_NINE: u8 = 0x39;

pub const LETTER_A: u8 = 0x41;

pub const LETTER_B: u8 = 0x42;

pub const LETTER_C: u8 = 0x43;

pub const LETTER_D: u8 = 0x44;

pub const LETTER_E: u8 = 0x45;

pub const LETTER_F: u8 = 0x46;

pub const LETTER_G: u8 = 0x47;

#[derive(Copy, Clone, Debug, PartialEq, Eq, Structural)]
pub struct FrettedContext {
    pub string_num: usize,
}

impl Default for FrettedContext {
    fn default() -> (r: FrettedContext)
        ensures
            r.string_num == GUITAR_STRING_NUM,
    {
        FrettedContext { string_num: GUITAR_STRING_NUM }
    }
}

#[derive(Copy, Clone, Debug, PartialEq, Eq, Structural)]
pub struct Context {
    pub key: Key,
    pub scale: Scale,
    pub duration: Duration,
    pub octave: Octave,
    pub fretted: FrettedContext,
}

/// A shift of one octave up or down.
#[derive(Copy, Clone, Debug, PartialEq, Eq, Structural)]
pub enum OctaveTweak {
    Higher,
    Lower,
}

/// A directive: a new value for one field of the context.
#[derive(Copy, Clone, Debug, PartialEq, Eq, Structural)]
pub enum ContextDsl {
    Key(Key),
    Scale(Scale),
    Duration(Duration),
    Octave(Octave),
    StringNum(usize),
}

/// The context a parse starts from: C major, quarter notes, the fourth
/// octave, six strings.
pub open spec fn spec_default_context() -> Context {
    Context {
        key: Key { tonic: Pitch { name: PitchName::C, sign: PitchSign::Natural } },
        scale: Scale::Major,
        duration: Duration::Simple(Units::Quarter),
        octave: Octave::P4,
        fretted: FrettedContext { string_num: 6 },
    }
}

impl Default for Context {
    fn default() -> (r: Context)
        ensures
            r == spec_default_context(),
    {
        Context {
            key: Key::default(),
            scale: Scale::default(),
            duration: Duration::default(),
            octave: Octave::P4,
            fretted: FrettedContext::default(),
        }
    }
}

impl OctaveTweak {
    pub open spec fn spec_tweak(self, base: Octave) -> Option<Octave> {
        let level = match self {
            OctaveTweak::Higher => base.spec_level() + 1,
            OctaveTweak::Lower => base.spec_level() - 1,
        };
        if 0 <= level <= 9 {
            Some(Octave::spec_from_level(level))
        } else {
            None
        }
    }

    /// The octave one level up or down, if it exists.
    pub fn tweak(&self, base: &Octave) -> (r: Option<Octave>)
        ensures
            r == self.spec_tweak(*base),
    {
        let level = base.level();
        match self {
            OctaveTweak::Higher => if level < 9 {
                Some(Octave::from_level(level + 1))
            } else {
                None
            },
            OctaveTweak::Lower => if level > 0 {
                Some(Octave::from_level(level - 1))
            } else {
                None
            },
        }
    }
}

impl Context {
    /// The octave in force, shifted by an optional tweak.
    pub open spec fn spec_octave(self, tweak: Option<OctaveTweak>) -> Result<Octave, ErrorKind> {
        match tweak {
            None => Ok(self.octave),
            Some(t) => match t.spec_tweak(self.octave) {
                Some(o) => Ok(o),
                None => Err(ErrorKind::UnsupportedConfiguration),
            },
        }
    }

    /// The duration in force, changed by an optional tweak.
    pub open spec fn spec_tweaked_duration(self, tweak: Option<DurationTweak>) -> Result<
        Duration,
        ErrorKind,
    > {
        match tweak {
            None => Ok(self.duration),
            Some(t) => match self.duration.spec_tweak(t) {
                Some(d) => Ok(d),
                None => Err(ErrorKind::UnsupportedTweak),
            },
        }
    }

    /// The note of a syllable in the key, scale and tweaked octave in force.
    pub open spec fn spec_calc_note(self, tweak: Option<OctaveTweak>, syllable: Syllable) -> Result<
        Note,
        ErrorKind,
    > {
        match self.spec_octave(tweak) {
            Err(k) => Err(k),
            Ok(o) => match self.scale.spec_calc_note(
                self.key,
                SyllableNote { octave: o, syllable },
            ) {
                Ok(n) => Ok(n),
                Err(_) => Err(ErrorKind::UnknownSyllable),
            },
        }
    }

    pub fn key(&self) -> (r: Key)
        ensures
            r == self.key,
    {
        self.key
    }

    pub fn scale(&self) -> (r: Scale)
        ensures
            r == self.scale,
    {
        self.scale
    }

    pub fn duration(&self) -> (r: Duration)
        ensures
            r == self.duration,
    {
        self.duration
    }

    pub fn base_octave(&self) -> (r: Octave)
        ensures
            r == self.octave,
    {
        self.octave
    }

    pub fn fretted(&self) -> (r: FrettedContext)
        ensures
            r == self.fretted,
    {
        self.fretted
    }

    pub fn octave(&self, tweak: &Option<OctaveTweak>) -> (r: Result<Octave, ErrorKind>)
        ensures
            r == self.spec_octave(*tweak),
    {
        match tweak {
            None => Ok(self.octave),
            Some(t) => match t.tweak(&self.octave) {
                Some(o) => Ok(o),
                None => Err(ErrorKind::UnsupportedConfiguration),
            },
        }
    }

    /// The duration in force for one token; the context itself keeps its
    /// duration.
    pub fn tweaked_duration(&self, tweak: &Option<DurationTweak>) -> (r: Result<
        Duration,
        ErrorKind,
    >)
        ensures
            r == self.spec_tweaked_duration(*tweak),
    {
        match tweak {
            None => Ok(self.duration),
            Some(t) => match self.duration.tweak(*t) {
                Ok(d) => Ok(d),
                Err(_) => Err(ErrorKind::UnsupportedTweak),
            },
        }
    }

    pub fn calc_note(&self, tweak: &Option<OctaveTweak>, syllable: &Syllable) -> (r: Result<
        Note,
        ErrorKind,
    >)
        ensures
            r == self.spec_calc_note(*tweak, *syllable),
    {
        let octave = self.octave(tweak)?;
        match self.scale.calc_note(&self.key, &SyllableNote::new(octave, *syllable)) {
            Ok(n) => Ok(n),
            Err(_) => Err(ErrorKind::UnknownSyllable),
        }
    }
}

/// The bytes of `key`.
pub open spec fn word_key() -> Seq<u8> {
    seq![0x6bu8, 0x65u8, 0x79u8]
}

/// The bytes of `scale`.
pub open spec fn word_scale() -> Seq<u8> {
    seq![0x73u8, 0x63u8, 0x61u8, 0x6cu8, 0x65u8]
}

/// The bytes of `duration`.
pub open spec fn word_duration() -> Seq<u8> {
    seq![0x64u8, 0x75u8, 0x72u8, 0x61u8, 0x74u8, 0x69u8, 0x6fu8, 0x6eu8]
}

/// The bytes of `octave`.
pub open spec fn word_octave() -> Seq<u8> {
    seq![0x6fu8, 0x63u8, 0x74u8, 0x61u8, 0x76u8, 0x65u8]
}

/// The bytes of `string_num`.
pub open spec fn word_string_num() -> Seq<u8> {
    seq![0x73u8, 0x74u8, 0x72u8, 0x69u8, 0x6eu8, 0x67u8, 0x5fu8, 0x6eu8, 0x75u8, 0x6du8]
}

/// The bytes of `major`.
pub open spec fn word_major() -> Seq<u8> {
    seq![0x6du8, 0x61u8, 0x6au8, 0x6fu8, 0x72u8]
}

/// The bytes of `minor`.
pub open spec fn word_minor() -> Seq<u8> {
    seq![0x6du8, 0x69u8, 0x6eu8, 0x6fu8, 0x72u8]
}

/// The bytes of `major_penta`.
pub open spec fn word_major_penta() -> Seq<u8> {
    seq![0x6du8, 0x61u8, 0x6au8, 0x6fu8, 0x72u8, 0x5fu8, 0x70u8, 0x65u8, 0x6eu8, 0x74u8, 0x61u8]
}

/// The bytes of `minor_penta`.
pub open spec fn word_minor_penta() -> Seq<u8> {
    seq![0x6du8, 0x69u8, 0x6eu8, 0x6fu8, 0x72u8, 0x5fu8, 0x70u8, 0x65u8, 0x6eu8, 0x74u8, 0x61u8]
}

pub open spec fn spec_letter(b: u8) -> Option<PitchName> {
    if b == LETTER_C {
        Some(PitchName::C)
    } else if b == LETTER_D {
        Some(PitchName::D)
    } else if b == LETTER_E {
        Some(PitchName::E)
    } else if b == LETTER_F {
        Some(PitchName::F)
    } else if b == LETTER_G {
        Some(PitchName::G)
    } else if b == LETTER_A {
        Some(PitchName::A)
    } else if b == LETTER_B {
        Some(PitchName::B)
    } else {
        None
    }
}

/// A pitch written as a capital letter, optionally followed by `#` (sharp)
/// or `b` (flat).
pub open spec fn spec_pitch_text(src: Seq<u8>, a: int, b: int) -> Option<Pitch> {
    if b - a == 1 || b - a == 2 {
        match spec_letter(src[a]) {
            None => None,
            Some(name) => if b - a == 1 {
                Some(Pitch { name, sign: PitchSign::Natural })
            } else if src[a + 1] == SHARP_MARK {
                Some(Pitch { name, sign: PitchSign::Sharp })
            } else if src[a + 1] == FLAT_MARK {
                Some(Pitch { name, sign: PitchSign::Flat })
            } else {
                None
            },
        }
    } else {
        None
    }
}

/// A scale written by name.
pub open spec fn spec_scale_text(src: Seq<u8>, a: int, b: int) -> Option<Scale> {
    let w = src.subrange(a, b);
    if w == word_major() {
        Some(Scale::Major)
    } else if w == word_minor() {
        Some(Scale::Minor)
    } else if w == word_major_penta() {
        Some(Scale::MajorPentatonic)
    } else if w == word_minor_penta() {
        Some(Scale::MinorPentatonic)
    } else {
        None
    }
}

pub open spec fn spec_units_of(n: int) -> Option<Units> {
    if n == 1 {
        Some(Units::Whole)
    } else if n == 2 {
        Some(Units::Half)
    } else if n == 4 {
        Some(Units::Quarter)
    } else if n == 8 {
        Some(Units::Eighth)
    } else if n == 16 {
        Some(Units::Sixteenth)
    } else if n == 32 {
        Some(Units::ThirtySecond)
    } else {
        None
    }
}

/// A duration written as the denominator of its fraction of a whole note
/// (`1`, `2`, `4`, `8`, `16`, `32`), dotted with a trailing `.`; `0` is the
/// zero duration.
pub open spec fn spec_duration_text(src: Seq<u8>, a: int, b: int) -> Option<Duration> {
    let dotted = b > a && src[b - 1] == DOT;
    let end = if dotted {
        b - 1
    } else {
        b
    };
    match spec_number(src, a, end) {
        None => None,
        Some(n) => if n == 0 {
            if dotted {
                None
            } else {
                Some(Duration::Zero)
            }
        } else {
            match spec_units_of(n) {
                None => None,
                Some(u) => if dotted {
                    Some(Duration::Dotted(u))
                } else {
                    Some(Duration::Simple(u))
                },
            }
        },
    }
}

/// An octave written as one digit, its level.
pub open spec fn spec_octave_text(src: Seq<u8>, a: int, b: int) -> Option<Octave> {
    if b - a == 1 && DIGIT_ZERO <= src[a] <= DIGIT_NINE {
        Some(Octave::spec_from_level(src[a] - DIGIT_ZERO))
    } else {
        None
    }
}

/// The directive written in `src[start..end]`: `$`, a name, `=`, a value.
pub open spec fn spec_directive(src: Seq<u8>, start: int, end: int) -> Result<
    ContextDsl,
    ErrorKind,
> {
    if end <= start || src[start] != DOLLAR {
        Err(ErrorKind::InvalidDirective)
    } else {
        let eq = find_byte(src, start + 1, end, EQUALS);
        if eq >= end {
            Err(ErrorKind::InvalidDirective)
        } else {
            let name = src.subrange(start + 1, eq);
            let (a, b) = (eq + 1, end);
            let value = if name == word_key() {
                match spec_pitch_text(src, a, b) {
                    Some(p) => Some(ContextDsl::Key(Key { tonic: p })),
                    None => None,
                }
            } else if name == word_scale() {
                match spec_scale_text(src, a, b) {
                    Some(s) => Some(ContextDsl::Scale(s)),
                    None => None,
                }
            } else if name == word_duration() {
                match spec_duration_text(src, a, b) {
                    Some(d) => Some(ContextDsl::Duration(d)),
                    None => None,
                }
            } else if name == word_octave() {
                match spec_octave_text(src, a, b) {
                    Some(o) => Some(ContextDsl::Octave(o)),
                    None => None,
                }
            } else if name == word_string_num() {
                match spec_number(src, a, b) {
                    Some(n) => Some(ContextDsl::StringNum(n as usize)),
                    None => None,
                }
            } else {
                None
            };
            match value {
                Some(d) => Ok(d),
                None => Err(ErrorKind::InvalidDirective),
            }
        }
    }
}

fn letter(b: u8) -> (r: Option<PitchName>)
    ensures
        r == spec_letter(b),
{
    if b == LETTER_C {
        Some(PitchName::C)
    } else if b == LETTER_D {
        Some(PitchName::D)
    } else if b == LETTER_E {
        Some(PitchName::E)
    } else if b == LETTER_F {
        Some(PitchName::F)
    } else if b == LETTER_G {
        Some(PitchName::G)
    } else if b == LETTER_A {
        Some(PitchName::A)
    } else if b == LETTER_B {
        Some(PitchName::B)
    } else {
        None
    }
}

/// Reads a pitch such as `C`, `F#` or `Bb` from `src[a..b]`.
pub fn parse_pitch(src: &[u8], a: usize, b: usize) -> (r: Option<Pitch>)
    requires
        a <= b <= src@.len(),
    ensures
        r == spec_pitch_text(src@, a as int, b as int),
{
    if b - a != 1 && b - a != 2 {
        return None;
    }
    let name = match letter(src[a]) {
        None => return None,
        Some(name) => name,
    };
    if b - a == 1 {
        Some(Pitch { name, sign: PitchSign::Natural })
    } else if src[a + 1] == SHARP_MARK {
        Some(Pitch { name, sign: PitchSign::Sharp })
    } else if src[a + 1] == FLAT_MARK {
        Some(Pitch { name, sign: PitchSign::Flat })
    } else {
        None
    }
}

fn parse_scale(src: &[u8], a: usize, b: usize) -> (r: Option<Scale>)
    requires
        a <= b <= src@.len(),
    ensures
        r == spec_scale_text(src@, a as int, b as int),
{
    let major = vec![0x6du8, 0x61u8, 0x6au8, 0x6fu8, 0x72u8];
    let minor = vec![0x6du8, 0x69u8, 0x6eu8, 0x6fu8, 0x72u8];
    let major_penta = vec![0x6du8, 0x61u8, 0x6au8, 0x6fu8, 0x72u8, 0x5fu8, 0x70u8, 0x65u8, 0x6eu8, 0x74u8, 0x61u8];
    let minor_penta = vec![0x6du8, 0x69u8, 0x6eu8, 0x6fu8, 0x72u8, 0x5fu8, 0x70u8, 0x65u8, 0x6eu8, 0x74u8, 0x61u8];
    assert(major@ =~= word_major());
    assert(minor@ =~= word_minor());
    assert(major_penta@ =~= word_major_penta());
    assert(minor_penta@ =~= word_minor_penta());
    if matches_word(src, a, b, &major) {
        Some(Scale::Major)
    } else if matches_word(src, a, b, &minor) {
        Some(Scale::Minor)
    } else if matches_word(src, a, b, &major_penta) {
        Some(Scale::MajorPentatonic)
    } else if matches_word(src, a, b, &minor_penta) {
        Some(Scale::MinorPentatonic)
    } else {
        None
    }
}

fn units_of(n: u32) -> (r: Option<Units>)
    ensures
        r == spec_units_of(n as int),
{
    if n == 1 {
        Some(Units::Whole)
    } else if n == 2 {
        Some(Units::Half)
    } else if n == 4 {
        Some(Units::Quarter)
    } else if n == 8 {
        Some(Units::Eighth)
    } else if n == 16 {
        Some(Units::Sixteenth)
    } else if n == 32 {
        Some(Units::ThirtySecond)
    } else {
        None
    }
}

/// Reads a duration such as `4`, `8.` or `0` from `src[a..b]`.
pub fn parse_duration(src: &[u8], a: usize, b: usize) -> (r: Option<Duration>)
    requires
        a <= b <= src@.len(),
    ensures
        r == spec_duration_text(src@, a as int, b as int),
{
    let dotted = b > a && src[b - 1] == DOT;
    let end = if dotted {
        b - 1
    } else {
        b
    };
    match parse_number(src, a, end) {
        None => None,
        Some(n) => if n == 0 {
            if dotted {
                None
            } else {
                Some(Duration::Zero)
            }
        } else {
            match units_of(n) {
                None => None,
                Some(u) => if dotted {
                    Some(Duration::Dotted(u))
                } else {
                    Some(Duration::Simple(u))
                },
            }
        },
    }
}

fn parse_octave(src: &[u8], a: usize, b: usize) -> (r: Option<Octave>)
    requires
        a <= b <= src@.len(),
    ensures
        r == spec_octave_text(src@, a as int, b as int),
{
    if b - a == 1 && DIGIT_ZERO <= src[a] && src[a] <= DIGIT_NINE {
        Some(Octave::from_level(src[a] - DIGIT_ZERO))
    } else {
        None
    }
}

impl ContextDsl {
    /// Whether a directive starts at `pos`.
    pub fn peek(src: &[u8], pos: usize) -> (r: bool)
        ensures
            r == (pos < src@.len() && src@[pos as int] == DOLLAR),
    {
        pos < src.len() && src[pos] == DOLLAR
    }

    /// Reads the directive in the token at `start`. On success, gives it with
    /// the position after the token; an unknown name or a value that does not
    /// read fails with `InvalidDirective` at `start`.
    pub fn parse(src: &[u8], start: usize) -> (r: Result<(ContextDsl, usize), ParseError>)
        requires
            start <= src@.len(),
        ensures
            match spec_directive(src@, start as int, token_end(src@, start as int)) {
                Ok(d) => r == Ok::<(ContextDsl, usize), ParseError>(
                    (d, token_end(src@, start as int) as usize),
                ),
                Err(k) => r == Err::<(ContextDsl, usize), ParseError>(
                    ParseError { kind: k, offset: start },
                ),
            },
    {
        let end = find_token_end(src, start);
        let fail = ParseError::new(ErrorKind::InvalidDirective, start);
        if end <= start || src[start] != DOLLAR {
            return Err(fail);
        }
        let eq = find_byte_in(src, start + 1, end, EQUALS);
        if eq >= end {
            return Err(fail);
        }
        let (a, b) = (eq + 1, end);
        let key = vec![0x6bu8, 0x65u8, 0x79u8];
        let scale = vec![0x73u8, 0x63u8, 0x61u8, 0x6cu8, 0x65u8];
        let duration = vec![0x64u8, 0x75u8, 0x72u8, 0x61u8, 0x74u8, 0x69u8, 0x6fu8, 0x6eu8];
        let octave = vec![0x6fu8, 0x63u8, 0x74u8, 0x61u8, 0x76u8, 0x65u8];
        let string_num = vec![0x73u8, 0x74u8, 0x72u8, 0x69u8, 0x6eu8, 0x67u8, 0x5fu8, 0x6eu8, 0x75u8, 0x6du8];
        assert(key@ =~= word_key());
        assert(scale@ =~= word_scale());
        assert(duration@ =~= word_duration());
        assert(octave@ =~= word_octave());
        assert(string_num@ =~= word_string_num());
        let value = if matches_word(src, start + 1, eq, &key) {
            match parse_pitch(src, a, b) {
                Some(p) => Some(ContextDsl::Key(Key::new(p))),
                None => None,
            }
        } else if matches_word(src, start + 1, eq, &scale) {
            match parse_scale(src, a, b) {
                Some(s) => Some(ContextDsl::Scale(s)),
                None => None,
            }
        } else if matches_word(src, start + 1, eq, &duration) {
            match parse_duration(src, a, b) {
                Some(d) => Some(ContextDsl::Duration(d)),
                None => None,
            }
        } else if matches_word(src, start + 1, eq, &octave) {
            match parse_octave(src, a, b) {
                Some(o) => Some(ContextDsl::Octave(o)),
                None => None,
            }
        } else if matches_word(src, start + 1, eq, &string_num) {
            match parse_number(src, a, b) {
                Some(n) => Some(ContextDsl::StringNum(n as usize)),
                None => None,
            }
        } else {
            None
        };
        match value {
            Some(d) => Ok((d, end)),
            None => Err(fail),
        }
    }

    /// The context after this directive; a string count other than four or
    /// six is refused.
    pub open spec fn spec_apply(self, ctx: Context) -> Result<Context, ErrorKind> {
        match self {
            ContextDsl::Key(k) => Ok(Context { key: k, ..ctx }),
            ContextDsl::Scale(s) => Ok(Context { scale: s, ..ctx }),
            ContextDsl::Duration(d) => Ok(Context { duration: d, ..ctx }),
            ContextDsl::Octave(o) => Ok(Context { octave: o, ..ctx }),
            ContextDsl::StringNum(n) => if supported_string_num(n as int) {
                Ok(Context { fretted: FrettedContext { string_num: n }, ..ctx })
            } else {
                Err(ErrorKind::UnsupportedConfiguration)
            },
        }
    }

    /// Sets the field of the context that this directive names; on failure
    /// the context is left as it was.
    pub fn apply(&self, ctx: &mut Context) -> (r: Result<(), ErrorKind>)
        ensures
            match self.spec_apply(*old(ctx)) {
                Ok(c) => r is Ok && *final(ctx) == c,
                Err(k) => r == Err::<(), ErrorKind>(k) && *final(ctx) == *old(ctx),
            },
    {
        match self {
            ContextDsl::Key(k) => {
                ctx.key = *k;
            },
            ContextDsl::Scale(s) => {
                ctx.scale = *s;
            },
            ContextDsl::Duration(d) => {
                ctx.duration = *d;
            },
            ContextDsl::Octave(o) => {
                ctx.octave = *o;
            },
            ContextDsl::StringNum(n) => {
                if !is_supported_string_num(*n) {
                    return Err(ErrorKind::UnsupportedConfiguration);
                }
                ctx.fretted.string_num = *n;
            },
        }
        Ok(())
    }
}

pub const DOUBLE_MARK: u8 = 0x2a;

pub const HALVE_MARK: u8 = 0x2f;

pub const REMOVE_DOT_MARK: u8 = 0x7e;

/// The duration tweak a byte marks: `*` doubles, `/` halves, `.` adds a dot
/// and `~` removes one.
pub open spec fn spec_tweak_mark(b: u8) -> Option<DurationTweak> {
    if b == DOUBLE_MARK {
        Some(DurationTweak::Double)
    } else if b == HALVE_MARK {
        Some(DurationTweak::Halve)
    } else if b == DOT {
        Some(DurationTweak::AddDot)
    } else if b == REMOVE_DOT_MARK {
        Some(DurationTweak::RemoveDot)
    } else {
        None
    }
}

pub fn tweak_mark(b: u8) -> (r: Option<DurationTweak>)
    ensures
        r == spec_tweak_mark(b),
{
    if b == DOUBLE_MARK {
        Some(DurationTweak::Double)
    } else if b == HALVE_MARK {
        Some(DurationTweak::Halve)
    } else if b == DOT {
        Some(DurationTweak::AddDot)
    } else if b == REMOVE_DOT_MARK {
        Some(DurationTweak::RemoveDot)
    } else {
        None
    }
}

/// The bytes of a word that names a directive or a scale are ASCII.
proof fn lemma_word_ascii(src: Seq<u8>, a: int, b: int, w: Seq<u8>)
    requires
        0 <= a <= b <= src.len(),
        src.subrange(a, b) == w,
        forall|k: int| 0 <= k < w.len() ==> #[trigger] w[k] < 0x80u8,
    ensures
        ascii_range(src, a, b),
{
    assert forall|k: int| a <= k < b implies #[trigger] src[k] < 0x80u8 by {
        assert(src.subrange(a, b)[k - a] == src[k]);
    }
}

/// A directive that reads is written in ASCII, with its `=` inside the token.
pub proof fn lemma_directive_ascii(src: Seq<u8>, start: int, end: int)
    requires
        0 <= start < end <= src.len(),
        spec_directive(src, start, end) is Ok,
    ensures
        start + 1 <= find_byte(src, start + 1, end, EQUALS) < end,
        ascii_range(src, start + 1, end),
{
    let eq = find_byte(src, start + 1, end, EQUALS);
    lemma_find_byte(src, start + 1, end, EQUALS);
    let name = src.subrange(start + 1, eq);
    let (a, b) = (eq + 1, end);
    if name == word_key() {
        lemma_word_ascii(src, start + 1, eq, word_key());
    } else if name == word_scale() {
        lemma_word_ascii(src, start + 1, eq, word_scale());
        let w = src.subrange(a, b);
        if w == word_major() {
            lemma_word_ascii(src, a, b, word_major());
        } else if w == word_minor() {
            lemma_word_ascii(src, a, b, word_minor());
        } else if w == word_major_penta() {
            lemma_word_ascii(src, a, b, word_major_penta());
        } else {
            lemma_word_ascii(src, a, b, word_minor_penta());
        }
    } else if name == word_duration() {
        lemma_word_ascii(src, start + 1, eq, word_duration());
        let dotted = b > a && src[b - 1] == DOT;
        let e = if dotted {
            b - 1
        } else {
            b
        };
        lemma_digit_run(src, a);
        assert forall|k: int| a <= k < b implies #[trigger] src[k] < 0x80u8 by {
            if k < e {
                assert(is_digit(src[k]));
            }
        }
    } else if name == word_octave() {
        lemma_word_ascii(src, start + 1, eq, word_octave());
    } else {
        lemma_word_ascii(src, start + 1, eq, word_string_num());
        lemma_digit_run(src, a);
    }
    assert forall|k: int| start + 1 <= k < end implies #[trigger] src[k] < 0x80u8 by {
        if k < eq {
            assert(src[k] < 0x80u8);
        } else if k == eq {
            assert(src[k] == EQUALS);
        } else {
            assert(src[k] < 0x80u8);
        }
    }
}

/// In any context, a syllable that the scale defines resolves, wherever the
/// shifted octave exists, to a note whose pitch class lies the syllable's
/// interval above the key's tonic, modulo twelve.
pub proof fn lemma_context_calc_note_interval(
    ctx: Context,
    tweak: Option<OctaveTweak>,
    syllable: Syllable,
)
    requires
        ctx.scale.defines(syllable),
        ctx.spec_octave(tweak) is Ok,
    ensures
        ctx.spec_calc_note(tweak, syllable) is Ok,
        ctx.spec_calc_note(tweak, syllable)->Ok_0.pitch.spec_semitones() == pitch_class(
            ctx.key.tonic.spec_semitones() + syllable.spec_interval(),
        ),
{
    let sn = SyllableNote { octave: ctx.spec_octave(tweak)->Ok_0, syllable };
    lemma_calc_note_interval(ctx.scale, ctx.key, sn);
}

} // verus!
