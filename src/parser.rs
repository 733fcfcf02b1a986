//! The notation parser. A source is a sequence of tokens separated by
//! whitespace:
//!
//! - `$name=value` sets a field of the context (see `ContextDsl`) and leaves
//!   an annotation, an extra keyed `dsl::context::name`;
//! - a digit `1` to `9` is a scale degree, resolved to a note in the key,
//!   scale and octave in force; `0` is a rest. A degree may be followed by
//!   `'` (an octave up) or `,` (an octave down);
//! - `(` frets `)` is a hand shape on the strings in force (see `ShapeDsl`);
//! - `p` or `s` followed by string numbers (`1` is the highest string) is a
//!   pick or a strum;
//! - `#name` is a mark, `"text"` a word sung for a duration, and
//!   `@key=value` an extra annotation; their text is ASCII.
//!
//! Any musical token may end with a duration tweak (`*`, `/`, `.`, `~`)
//! that changes the duration in force for that token alone.

use vstd::prelude::*;
use vstd::string::StringSliceAdditionalSpecFns;
use crate::context::{
    spec_directive, spec_tweak_mark, tweak_mark, word_duration, word_key, word_octave, word_scale,
    word_string_num, lemma_directive_ascii, Context, ContextDsl, OctaveTweak, DIGIT_ZERO, DOLLAR,
    EQUALS,
};
use crate::entry::{CoreEntry, Solfege};
use crate::error::{ErrorKind, ParseError};
use crate::fretted::{
    Finger, FrettedEntry, HandShape, PickEvent, StrumEvent, BASS_STRING_NUM, GUITAR_STRING_NUM,
};
use crate::proto::{EntryModel, ProtoEntry};
use crate::scale::SyllableNote;
use crate::shape::{spec_fret_list, spec_tweak_at, ShapeDsl};
use crate::text::{
    append_ascii, append_chars, ascii_range, ascii_string, ascii_text, byte_is_digit, digits_end, find_byte, find_byte_in,
    find_digits_end, find_non_space, find_token_end, is_ascii_range, is_digit,
    lemma_skip_space_bounds, lemma_token_end_bounds, skip_space, token_end,
};

verus! {

pub const OPEN_PAREN: u8 = 0x28;

pub const CLOSE_PAREN: u8 = 0x29;

pub const PICK_MARK: u8 = 0x70;

pub const STRUM_MARK: u8 = 0x73;

pub const OCTAVE_UP_MARK: u8 = 0x27;

pub const OCTAVE_DOWN_MARK: u8 = 0x2c;

pub const DIGIT_ONE: u8 = 0x31;

pub const MARK_SIGN: u8 = 0x23;

pub const QUOTE: u8 = 0x22;

pub const EXTRA_SIGN: u8 = 0x40;

/// What a token gives: an entry or none, and the position after it.
pub type StepModel = Result<(Option<EntryModel>, int), ParseError>;

pub type Step = Result<(Option<ProtoEntry>, usize), ParseError>;

pub open spec fn opt_view(e: Option<ProtoEntry>) -> Option<EntryModel> {
    match e {
        Some(x) => Some(x@),
        None => None,
    }
}

/// An executed step agrees with its model.
pub open spec fn step_agrees(r: Step, m: StepModel) -> bool {
    match m {
        Ok((e, next)) => r matches Ok((x, n)) && opt_view(x) == e && n as int == next,
        Err(err) => r == Err::<(Option<ProtoEntry>, usize), ParseError>(err),
    }
}

pub open spec fn at(kind: ErrorKind, offset: int) -> ParseError {
    ParseError { kind, offset: offset as usize }
}

pub open spec fn spec_octave_mark(b: u8) -> Option<OctaveTweak> {
    if b == OCTAVE_UP_MARK {
        Some(OctaveTweak::Higher)
    } else if b == OCTAVE_DOWN_MARK {
        Some(OctaveTweak::Lower)
    } else {
        None
    }
}

/// A degree or rest token at `p`: a digit, an optional octave mark, an
/// optional duration tweak, and nothing more before the next whitespace.
pub open spec fn spec_degree_token(src: Seq<u8>, p: int, ctx: Context) -> StepModel {
    let end = token_end(src, p);
    let digit = src[p] - DIGIT_ZERO;
    let q = p + 1;
    let (ot, q1) = if q < end && spec_octave_mark(src[q]) is Some {
        (spec_octave_mark(src[q]), q + 1)
    } else {
        (None, q)
    };
    let (dt, q2) = if q1 < end && spec_tweak_mark(src[q1]) is Some {
        (spec_tweak_mark(src[q1]), q1 + 1)
    } else {
        (None, q1)
    };
    let syllables = ctx.scale.spec_syllables();
    if q2 != end {
        Err(at(ErrorKind::MalformedToken, p))
    } else if digit == 0 {
        if ot is Some {
            Err(at(ErrorKind::MalformedToken, p))
        } else {
            match ctx.spec_tweaked_duration(dt) {
                Err(k) => Err(at(k, p)),
                Ok(d) => Ok((Some(EntryModel::Core(CoreEntry::Rest(d))), end)),
            }
        }
    } else if digit > syllables.len() {
        Err(at(ErrorKind::UnknownSyllable, p))
    } else {
        let syllable = syllables[digit - 1];
        match ctx.spec_octave(ot) {
            Err(k) => Err(at(k, p)),
            Ok(o) => {
                let sn = SyllableNote { octave: o, syllable };
                match ctx.scale.spec_calc_note(ctx.key, sn) {
                    Err(_) => Err(at(ErrorKind::UnknownSyllable, p)),
                    Ok(note) => match ctx.spec_tweaked_duration(dt) {
                        Err(k) => Err(at(k, p)),
                        Ok(d) => Ok(
                            (
                                Some(
                                    EntryModel::Core(
                                        CoreEntry::Solfege(Solfege { syllable_note: sn, note }, d),
                                    ),
                                ),
                                end,
                            ),
                        ),
                    },
                }
            },
        }
    }
}

/// Every string number in `src[q..e]` is one of the `n` strings.
pub open spec fn valid_string_numbers(src: Seq<u8>, q: int, e: int, n: int) -> bool {
    forall|k: int| q <= k < e ==> DIGIT_ONE <= #[trigger] src[k] && src[k] - DIGIT_ONE < n
}

/// The string indices named by the string numbers in `src[q..e]`.
pub open spec fn string_indices(src: Seq<u8>, q: int, e: int) -> Seq<u8> {
    Seq::new((e - q) as nat, |k: int| (src[q + k] - DIGIT_ONE) as u8)
}

/// A pick or strum token at `p`: its mark, one or more string numbers, an
/// optional duration tweak.
pub open spec fn spec_strings_token(src: Seq<u8>, p: int, ctx: Context) -> StepModel {
    let end = token_end(src, p);
    let q = p + 1;
    let e = digits_end(src, q);
    let (dt, q2) = if e < end && spec_tweak_mark(src[e]) is Some {
        (spec_tweak_mark(src[e]), e + 1)
    } else {
        (None, e)
    };
    let n = ctx.fretted.string_num as int;
    if e <= q || q2 != end {
        Err(at(ErrorKind::MalformedToken, p))
    } else if !(n == 4 || n == 6) || !valid_string_numbers(src, q, e, n) {
        Err(at(ErrorKind::UnsupportedConfiguration, p))
    } else {
        match ctx.spec_tweaked_duration(dt) {
            Err(k) => Err(at(k, p)),
            Ok(d) => {
                let picks = string_indices(src, q, e);
                if src[p] == PICK_MARK {
                    Ok((Some(EntryModel::Pick { strings: n as nat, picks, duration: d }), end))
                } else {
                    Ok((Some(EntryModel::Strum { strings: n as nat, picks, duration: d }), end))
                }
            },
        }
    }
}

/// A shape token at `p`: `(`, frets, an optional duration tweak, `)`.
pub open spec fn spec_shape_token(src: Seq<u8>, p: int, ctx: Context) -> StepModel {
    let (list, end, err) = spec_fret_list(src, p + 1);
    let (dt, q) = spec_tweak_at(src, end);
    let n = ctx.fretted.string_num as int;
    match err {
        Some(o) => Err(at(ErrorKind::MalformedToken, o)),
        None => if !(q < src.len() && src[q] == CLOSE_PAREN) {
            Err(at(ErrorKind::MalformedToken, q))
        } else if !(n == 4 || n == 6) || list.len() != n {
            Err(at(ErrorKind::UnsupportedConfiguration, p))
        } else {
            match ctx.spec_tweaked_duration(dt) {
                Err(k) => Err(at(k, p)),
                Ok(d) => Ok(
                    (
                        Some(
                            EntryModel::Shape {
                                strings: n as nat,
                                frets: list.reverse(),
                                fingers: Seq::new(n as nat, |i: int| None::<Finger>),
                                duration: d,
                            },
                        ),
                        q + 1,
                    ),
                ),
            }
        },
    }
}

/// A mark token at `p`: `#` and a name.
pub open spec fn spec_mark_token(src: Seq<u8>, p: int) -> StepModel {
    let end = token_end(src, p);
    if end > p + 1 && ascii_range(src, p + 1, end) {
        Ok((Some(EntryModel::Mark(ascii_text(src, p + 1, end))), end))
    } else {
        Err(at(ErrorKind::MalformedToken, p))
    }
}

/// A word token at `p`: text between double quotes, then an optional
/// duration tweak.
pub open spec fn spec_word_token(src: Seq<u8>, p: int, ctx: Context) -> StepModel {
    let end = token_end(src, p);
    let close = find_byte(src, p + 1, end, QUOTE);
    let after = close + 1;
    let (dt, q) = if after < end && spec_tweak_mark(src[after]) is Some {
        (spec_tweak_mark(src[after]), after + 1)
    } else {
        (None, after)
    };
    if close >= end || q != end || !ascii_range(src, p + 1, close) {
        Err(at(ErrorKind::MalformedToken, p))
    } else {
        match ctx.spec_tweaked_duration(dt) {
            Err(k) => Err(at(k, p)),
            Ok(d) => Ok((Some(EntryModel::Word(ascii_text(src, p + 1, close), d)), end)),
        }
    }
}

/// An extra token at `p`: `@`, a key, `=`, a value.
pub open spec fn spec_extra_token(src: Seq<u8>, p: int) -> StepModel {
    let end = token_end(src, p);
    let eq = find_byte(src, p + 1, end, EQUALS);
    if eq >= end || !ascii_range(src, p + 1, end) {
        Err(at(ErrorKind::MalformedToken, p))
    } else {
        Ok(
            (
                Some(EntryModel::Extra(ascii_text(src, p + 1, eq), ascii_text(src, eq + 1, end))),
                end,
            ),
        )
    }
}

/// The characters of `dsl::context::`, which prefix the key of a directive's
/// annotation.
pub open spec fn directive_prefix() -> Seq<char> {
    seq!['d', 's', 'l', ':', ':', 'c', 'o', 'n', 't', 'e', 'x', 't', ':', ':']
}

/// The annotation a directive at `p` leaves in the entries: an extra whose
/// key is `dsl::context::` and the directive's name, and whose value is the
/// value as written.
pub open spec fn directive_annotation(src: Seq<u8>, p: int, end: int) -> EntryModel {
    let eq = find_byte(src, p + 1, end, EQUALS);
    EntryModel::Extra(directive_prefix() + ascii_text(src, p + 1, eq), ascii_text(src, eq + 1, end))
}

/// The token at `p` (which holds no whitespace): what it gives, where it
/// ends, and the context after it.
#[verifier::opaque]
pub open spec fn spec_step(src: Seq<u8>, p: int, ctx: Context) -> Result<
    (Option<EntryModel>, int, Context),
    ParseError,
> {
    let c = src[p];
    if c == DOLLAR {
        let end = token_end(src, p);
        match spec_directive(src, p, end) {
            Err(k) => Err(at(k, p)),
            Ok(d) => match d.spec_apply(ctx) {
                Err(k) => Err(at(k, p)),
                Ok(c2) => Ok((Some(directive_annotation(src, p, end)), end, c2)),
            },
        }
    } else {
        let m = if is_digit(c) {
            spec_degree_token(src, p, ctx)
        } else if c == OPEN_PAREN {
            spec_shape_token(src, p, ctx)
        } else if c == PICK_MARK || c == STRUM_MARK {
            spec_strings_token(src, p, ctx)
        } else if c == MARK_SIGN {
            spec_mark_token(src, p)
        } else if c == QUOTE {
            spec_word_token(src, p, ctx)
        } else if c == EXTRA_SIGN {
            spec_extra_token(src, p)
        } else {
            Err(at(ErrorKind::MalformedToken, p))
        };
        match m {
            Err(e) => Err(e),
            Ok((e, next)) => Ok((e, next, ctx)),
        }
    }
}

/// Parsing from `pos`: the entries of the tokens up to the first failure,
/// that failure if there is one, and the context at the point reached.
pub open spec fn spec_run(src: Seq<u8>, pos: int, ctx: Context) -> (
    Seq<EntryModel>,
    Option<ParseError>,
    Context,
)
    decreases src.len() - pos,
{
    let p = skip_space(src, pos);
    if pos < 0 || pos > src.len() || p < pos || p >= src.len() {
        (Seq::empty(), None, ctx)
    } else {
        match spec_step(src, p, ctx) {
            Err(e) => (Seq::empty(), Some(e), ctx),
            // Every token ends past its start; the first branch only bounds
            // the recursion.
            Ok((m, next, c2)) => if next <= p || next > src.len() {
                (Seq::empty(), Some(at(ErrorKind::MalformedToken, p)), ctx)
            } else {
                let (rest, err, c3) = spec_run(src, next, c2);
                let head = match m {
                    Some(x) => seq![x],
                    None => Seq::empty(),
                };
                (head + rest, err, c3)
            },
        }
    }
}

pub open spec fn entries_view(v: Seq<ProtoEntry>) -> Seq<EntryModel> {
    v.map_values(|e: ProtoEntry| e@)
}

fn octave_mark(b: u8) -> (r: Option<OctaveTweak>)
    ensures
        r == spec_octave_mark(b),
{
    if b == OCTAVE_UP_MARK {
        Some(OctaveTweak::Higher)
    } else if b == OCTAVE_DOWN_MARK {
        Some(OctaveTweak::Lower)
    } else {
        None
    }
}

fn parse_degree_token(src: &[u8], p: usize, ctx: &Context) -> (r: Step)
    requires
        src@.len() <= usize::MAX,
        p < src@.len(),
        is_digit(src@[p as int]),
    ensures
        step_agrees(r, spec_degree_token(src@, p as int, *ctx)),
        r matches Ok((_, n)) ==> p < n <= src@.len(),
{
    let end = find_token_end(src, p);
    proof {
        lemma_token_end_bounds(src@, p as int);
    }
    let digit = src[p] - DIGIT_ZERO;
    let q = p + 1;
    let (ot, q1) = if q < end {
        match octave_mark(src[q]) {
            Some(t) => (Some(t), q + 1),
            None => (None, q),
        }
    } else {
        (None, q)
    };
    let (dt, q2) = if q1 < end {
        match tweak_mark(src[q1]) {
            Some(t) => (Some(t), q1 + 1),
            None => (None, q1),
        }
    } else {
        (None, q1)
    };
    let fail = ParseError::new(ErrorKind::MalformedToken, p);
    if q2 != end {
        return Err(fail);
    }
    if digit == 0 {
        if ot.is_some() {
            return Err(fail);
        }
        return match ctx.tweaked_duration(&dt) {
            Err(k) => Err(ParseError::new(k, p)),
            Ok(d) => Ok((Some(ProtoEntry::Core(CoreEntry::Rest(d))), end)),
        };
    }
    let syllable = match ctx.scale.degree_syllable(digit) {
        None => return Err(ParseError::new(ErrorKind::UnknownSyllable, p)),
        Some(s) => s,
    };
    let octave = match ctx.octave(&ot) {
        Err(k) => return Err(ParseError::new(k, p)),
        Ok(o) => o,
    };
    let sn = SyllableNote::new(octave, syllable);
    let note = match ctx.scale.calc_note(&ctx.key, &sn) {
        Err(_) => return Err(ParseError::new(ErrorKind::UnknownSyllable, p)),
        Ok(n) => n,
    };
    match ctx.tweaked_duration(&dt) {
        Err(k) => Err(ParseError::new(k, p)),
        Ok(d) => Ok(
            (Some(ProtoEntry::Core(CoreEntry::Solfege(Solfege { syllable_note: sn, note }, d))), end),
        ),
    }
}

fn read_string_indices(src: &[u8], q: usize, e: usize, n: usize) -> (r: Option<Vec<u8>>)
    requires
        q <= e <= src@.len(),
        n <= 6,
    ensures
        valid_string_numbers(src@, q as int, e as int, n as int) ==> (r matches Some(v) && v@
            == string_indices(src@, q as int, e as int)),
        !valid_string_numbers(src@, q as int, e as int, n as int) ==> r is None,
{
    let mut out: Vec<u8> = Vec::new();
    let mut k = q;
    while k < e
        invariant
            q <= k <= e,
            e <= src@.len(),
            n <= 6,
            valid_string_numbers(src@, q as int, k as int, n as int),
            out@ == string_indices(src@, q as int, k as int),
        decreases e - k,
    {
        let b = src[k];
        if b < DIGIT_ONE || (b - DIGIT_ONE) as usize >= n {
            return None;
        }
        out.push(b - DIGIT_ONE);
        k = k + 1;
        assert(out@ =~= string_indices(src@, q as int, k as int));
    }
    Some(out)
}

fn parse_strings_token(src: &[u8], p: usize, ctx: &Context) -> (r: Step)
    requires
        src@.len() <= usize::MAX,
        p < src@.len(),
        src@[p as int] == PICK_MARK || src@[p as int] == STRUM_MARK,
    ensures
        step_agrees(r, spec_strings_token(src@, p as int, *ctx)),
        r matches Ok((_, n)) ==> p < n <= src@.len(),
{
    let end = find_token_end(src, p);
    proof {
        lemma_token_end_bounds(src@, p as int);
    }
    let q = p + 1;
    let e = find_digits_end(src, q);
    let (dt, q2) = if e < end {
        match tweak_mark(src[e]) {
            Some(t) => (Some(t), e + 1),
            None => (None, e),
        }
    } else {
        (None, e)
    };
    if e <= q || q2 != end {
        return Err(ParseError::new(ErrorKind::MalformedToken, p));
    }
    let n = ctx.fretted.string_num;
    if n != GUITAR_STRING_NUM && n != BASS_STRING_NUM {
        return Err(ParseError::new(ErrorKind::UnsupportedConfiguration, p));
    }
    let picks = match read_string_indices(src, q, e, n) {
        None => return Err(ParseError::new(ErrorKind::UnsupportedConfiguration, p)),
        Some(v) => v,
    };
    let d = match ctx.tweaked_duration(&dt) {
        Err(k) => return Err(ParseError::new(k, p)),
        Ok(d) => d,
    };
    let is_pick = src[p] == PICK_MARK;
    let entry = if n == GUITAR_STRING_NUM {
        if is_pick {
            ProtoEntry::Fretted6(FrettedEntry::Pick(PickEvent::new(picks), d))
        } else {
            ProtoEntry::Fretted6(FrettedEntry::Strum(StrumEvent::new(picks), d))
        }
    } else {
        if is_pick {
            ProtoEntry::Fretted4(FrettedEntry::Pick(PickEvent::new(picks), d))
        } else {
            ProtoEntry::Fretted4(FrettedEntry::Strum(StrumEvent::new(picks), d))
        }
    };
    Ok((Some(entry), end))
}

fn parse_shape_token(src: &[u8], p: usize, ctx: &Context) -> (r: Step)
    requires
        src@.len() <= usize::MAX,
        p < src@.len(),
        src@[p as int] == OPEN_PAREN,
    ensures
        step_agrees(r, spec_shape_token(src@, p as int, *ctx)),
        r matches Ok((_, n)) ==> p < n <= src@.len(),
{
    let (shape, q) = match ShapeDsl::parse_without_paren(src, p + 1, false, true) {
        Err(e) => return Err(e),
        Ok(x) => x,
    };
    if !(q < src.len() && src[q] == CLOSE_PAREN) {
        return Err(ParseError::new(ErrorKind::MalformedToken, q));
    }
    let n = ctx.fretted.string_num;
    if (n != GUITAR_STRING_NUM && n != BASS_STRING_NUM) || shape.frets.len() != n {
        return Err(ParseError::new(ErrorKind::UnsupportedConfiguration, p));
    }
    let d = match ctx.tweaked_duration(&shape.duration_tweak) {
        Err(k) => return Err(ParseError::new(k, p)),
        Ok(d) => d,
    };
    let entry = if n == GUITAR_STRING_NUM {
        match HandShape::<6>::from_frets(shape.frets) {
            Ok(s) => ProtoEntry::Fretted6(FrettedEntry::Shape(s, d)),
            Err(k) => return Err(ParseError::new(k, p)),
        }
    } else {
        match HandShape::<4>::from_frets(shape.frets) {
            Ok(s) => ProtoEntry::Fretted4(FrettedEntry::Shape(s, d)),
            Err(k) => return Err(ParseError::new(k, p)),
        }
    };
    Ok((Some(entry), q + 1))
}

fn parse_mark_token(src: &[u8], p: usize) -> (r: Step)
    requires
        p < src@.len(),
        src@.len() <= usize::MAX,
        src@[p as int] == MARK_SIGN,
    ensures
        step_agrees(r, spec_mark_token(src@, p as int)),
        r matches Ok((_, n)) ==> p < n <= src@.len(),
{
    let end = find_token_end(src, p);
    if end > p + 1 && is_ascii_range(src, p + 1, end) {
        let name = ascii_string(src, p + 1, end);
        Ok((Some(ProtoEntry::Mark(name)), end))
    } else {
        Err(ParseError::new(ErrorKind::MalformedToken, p))
    }
}

fn parse_word_token(src: &[u8], p: usize, ctx: &Context) -> (r: Step)
    requires
        p < src@.len(),
        src@.len() <= usize::MAX,
        src@[p as int] == QUOTE,
    ensures
        step_agrees(r, spec_word_token(src@, p as int, *ctx)),
        r matches Ok((_, n)) ==> p < n <= src@.len(),
{
    let end = find_token_end(src, p);
    proof {
        lemma_token_end_bounds(src@, p as int);
    }
    let fail = ParseError::new(ErrorKind::MalformedToken, p);
    if end <= p {
        return Err(fail);
    }
    let close = find_byte_in(src, p + 1, end, QUOTE);
    if close >= end {
        return Err(fail);
    }
    let after = close + 1;
    let (dt, q) = if after < end {
        match tweak_mark(src[after]) {
            Some(t) => (Some(t), after + 1),
            None => (None, after),
        }
    } else {
        (None, after)
    };
    if q != end || !is_ascii_range(src, p + 1, close) {
        return Err(fail);
    }
    let d = match ctx.tweaked_duration(&dt) {
        Err(k) => return Err(ParseError::new(k, p)),
        Ok(d) => d,
    };
    let text = ascii_string(src, p + 1, close);
    Ok((Some(ProtoEntry::Word(text, d)), end))
}

fn parse_extra_token(src: &[u8], p: usize) -> (r: Step)
    requires
        p < src@.len(),
        src@.len() <= usize::MAX,
        src@[p as int] == EXTRA_SIGN,
    ensures
        step_agrees(r, spec_extra_token(src@, p as int)),
        r matches Ok((_, n)) ==> p < n <= src@.len(),
{
    let end = find_token_end(src, p);
    proof {
        lemma_token_end_bounds(src@, p as int);
    }
    let fail = ParseError::new(ErrorKind::MalformedToken, p);
    if end <= p {
        return Err(fail);
    }
    let eq = find_byte_in(src, p + 1, end, EQUALS);
    if eq >= end || !is_ascii_range(src, p + 1, end) {
        return Err(fail);
    }
    let key = ascii_string(src, p + 1, eq);
    let value = ascii_string(src, eq + 1, end);
    Ok((Some(ProtoEntry::Extra(key, value)), end))
}

/// Reads the token at `p` and applies it to the context.
fn parse_step(src: &[u8], p: usize, ctx: &mut Context) -> (r: Step)
    requires
        src@.len() <= usize::MAX,
        p < src@.len(),
    ensures
        match spec_step(src@, p as int, *old(ctx)) {
            Ok((m, next, c2)) => r matches Ok((e, n)) && opt_view(e) == m && n as int == next
                && *final(ctx) == c2,
            Err(err) => r == Err::<(Option<ProtoEntry>, usize), ParseError>(err) && *final(ctx)
                == *old(ctx),
        },
        r matches Ok((_, n)) ==> p < n <= src@.len(),
{
    reveal(spec_step);
    let c = src[p];
    if c == DOLLAR {
        let (d, end) = ContextDsl::parse(src, p)?;
        proof {
            lemma_token_end_bounds(src@, p as int);
            lemma_directive_ascii(src@, p as int, end as int);
        }
        match d.apply(ctx) {
            Err(k) => Err(ParseError::new(k, p)),
            Ok(()) => {
                let eq = find_byte_in(src, p + 1, end, EQUALS);
                let mut key = String::new();
                let prefix = vec!['d', 's', 'l', ':', ':', 'c', 'o', 'n', 't', 'e', 'x', 't', ':', ':'];
                assert(prefix@ =~= directive_prefix());
                append_chars(&mut key, &prefix);
                append_ascii(&mut key, src, p + 1, eq);
                let value = ascii_string(src, eq + 1, end);
                assert(key@ =~= directive_prefix() + ascii_text(src@, p + 1, eq as int));
                Ok((Some(ProtoEntry::Extra(key, value)), end))
            },
        }
    } else if byte_is_digit(c) {
        parse_degree_token(src, p, ctx)
    } else if c == OPEN_PAREN {
        parse_shape_token(src, p, ctx)
    } else if c == PICK_MARK || c == STRUM_MARK {
        parse_strings_token(src, p, ctx)
    } else if c == MARK_SIGN {
        parse_mark_token(src, p)
    } else if c == QUOTE {
        parse_word_token(src, p, ctx)
    } else if c == EXTRA_SIGN {
        parse_extra_token(src, p)
    } else {
        Err(ParseError::new(ErrorKind::MalformedToken, p))
    }
}

/// Parses `src` from the context `ctx`, as far as it reads: gives the
/// entries before the first failure and that failure, if any, and leaves in
/// `ctx` the context at the point reached.
pub fn parse_with_context(src: &[u8], ctx: &mut Context) -> (r: (Vec<ProtoEntry>, Option<ParseError>))
    ensures
        entries_view(r.0@) == spec_run(src@, 0, *old(ctx)).0,
        r.1 == spec_run(src@, 0, *old(ctx)).1,
        *final(ctx) == spec_run(src@, 0, *old(ctx)).2,
{
    let mut entries: Vec<ProtoEntry> = Vec::new();
    let mut pos: usize = 0;
    let ghost start_ctx = *ctx;
    loop
        invariant
            pos <= src@.len(),
            start_ctx == *old(ctx),
            ({
                let (rest, err, c) = spec_run(src@, pos as int, *ctx);
                spec_run(src@, 0, start_ctx) == (entries_view(entries@) + rest, err, c)
            }),
        decreases src@.len() - pos,
    {
        let p = find_non_space(src, pos);
        proof {
            lemma_skip_space_bounds(src@, pos as int);
        }
        if p >= src.len() {
            proof {
                assert(spec_run(src@, pos as int, *ctx) == (
                    Seq::<EntryModel>::empty(),
                    None::<ParseError>,
                    *ctx,
                ));
                assert(entries_view(entries@) + Seq::<EntryModel>::empty() =~= entries_view(
                    entries@,
                ));
            }
            return (entries, None);
        }
        let ghost before = *ctx;
        match parse_step(src, p, ctx) {
            Err(e) => {
                proof {
                    assert(spec_run(src@, pos as int, before) == (
                        Seq::<EntryModel>::empty(),
                        Some(e),
                        before,
                    ));
                    assert(entries_view(entries@) + Seq::<EntryModel>::empty() =~= entries_view(
                        entries@,
                    ));
                }
                return (entries, Some(e));
            },
            Ok((e, next)) => {
                let ghost eg = e;
                proof {
                    let (rest, err, c3) = spec_run(src@, next as int, *ctx);
                    let head = match opt_view(eg) {
                        Some(x) => seq![x],
                        None => Seq::<EntryModel>::empty(),
                    };
                    assert(spec_run(src@, pos as int, before) == (head + rest, err, c3));
                    match eg {
                        Some(x) => {
                            assert(entries_view(entries@.push(x)) =~= entries_view(entries@).push(
                                x@,
                            ));
                            assert(entries_view(entries@) + (head + rest) =~= entries_view(
                                entries@.push(x),
                            ) + rest);
                        },
                        None => {
                            assert(entries_view(entries@) + (head + rest) =~= entries_view(
                                entries@,
                            ) + rest);
                        },
                    }
                }
                match e {
                    Some(x) => entries.push(x),
                    None => {},
                }
                pos = next;
            },
        }
    }
}

/// Parses `src` from the default context, as far as it reads: the entries
/// before the first failure, and that failure, if any.
pub fn parse_partial(src: &str) -> (r: (Vec<ProtoEntry>, Option<ParseError>))
    ensures
        entries_view(r.0@) == spec_run(src.spec_bytes(), 0, crate::context::spec_default_context()).0,
        r.1 == spec_run(src.spec_bytes(), 0, crate::context::spec_default_context()).1,
{
    let mut ctx = Context::default();
    parse_with_context(src.as_bytes(), &mut ctx)
}

/// Parses `src` from the default context: all its entries, or the first
/// failure with its position.
pub fn parse_tab(src: &str) -> (r: Result<Vec<ProtoEntry>, ParseError>)
    ensures
        ({
            let (m, err, _) = spec_run(src.spec_bytes(), 0, crate::context::spec_default_context());
            match err {
                Some(e) => r == Err::<Vec<ProtoEntry>, ParseError>(e),
                None => r matches Ok(v) && entries_view(v@) == m,
            }
        }),
{
    let (entries, err) = parse_partial(src);
    match err {
        Some(e) => Err(e),
        None => Ok(entries),
    }
}

/// A directive whose name is none of `key`, `scale`, `duration`, `octave` and
/// `string_num` stops the parse with `InvalidDirective` at the offset of its
/// `$`, keeping the entries before it.
pub proof fn lemma_unknown_directive(src: Seq<u8>, pos: int, p: int, ctx: Context)
    requires
        0 <= pos <= p < src.len(),
        skip_space(src, pos) == p,
        src[p] == DOLLAR,
        ({
            let name = src.subrange(p + 1, find_byte(src, p + 1, token_end(src, p), EQUALS));
            name != word_key() && name != word_scale() && name != word_duration() && name
                != word_octave() && name != word_string_num()
        }),
    ensures
        spec_run(src, pos, ctx).1 == Some(at(ErrorKind::InvalidDirective, p)),
        spec_run(src, pos, ctx).0.len() == 0,
{
    reveal(spec_step);
}

/// With six strings in force, a shape of six frets written without a duration
/// tweak is stored in reverse: string 0 holds the last fret written and string
/// 5 the first.
pub proof fn lemma_shape_reversed(src: Seq<u8>, p: int, ctx: Context)
    requires
        0 <= p < src.len(),
        src[p] == OPEN_PAREN,
        ctx.fretted.string_num == 6,
        ({
            let (list, end, err) = spec_fret_list(src, p + 1);
            &&& err is None
            &&& list.len() == 6
            &&& end < src.len()
            &&& src[end] == CLOSE_PAREN
        }),
    ensures
        ({
            let (list, end, err) = spec_fret_list(src, p + 1);
            &&& spec_step(src, p, ctx) matches Ok((Some(EntryModel::Shape { strings, frets, .. }), _, c))
            &&& strings == 6 && c == ctx
            &&& forall|i: int| 0 <= i < 6 ==> #[trigger] frets[i] == list[5 - i]
        }),
{
    reveal(spec_step);
    let (list, end, err) = spec_fret_list(src, p + 1);
    assert(spec_tweak_mark(CLOSE_PAREN) is None);
}

} // verus!
