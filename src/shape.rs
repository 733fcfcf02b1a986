//! Reading a hand shape: a list of frets, highest string last as written,
//! followed by an optional duration tweak.

use vstd::prelude::*;
use crate::context::{spec_tweak_mark, tweak_mark};
use crate::duration::DurationTweak;
use crate::error::{ErrorKind, ParseError};
use crate::text::{
    byte_is_digit, decimal, digits_end, find_digits_end, find_non_space, is_digit,
    lemma_digit_run, lemma_digits_end_bounds, lemma_skip_space_bounds, parse_byte_value,
    skip_space,
};

verus! {

/// Marks a string that is not played.
pub const UNPLAYED_MARK: u8 = 0x5f;

/// A hand shape as written: frets stored lowest string first, and the
/// duration tweak that follows them.
pub struct ShapeDsl {
    pub frets: Vec<Option<u8>>,
    pub duration_tweak: Option<DurationTweak>,
}

/// The frets written from position `i`, separated by whitespace, in the order
/// written: a number up to 255 (leading zeros allowed), or `_` for an
/// unplayed string. Gives the frets, the position where the list ends, and the
/// position of a number that does not fit, if one was met.
pub open spec fn spec_fret_list(src: Seq<u8>, i: int) -> (Seq<Option<u8>>, int, Option<int>)
    decreases src.len() - i,
{
    let p = skip_space(src, i);
    if i < 0 || i > src.len() || p < i || p >= src.len() {
        (Seq::empty(), p, None)
    } else if is_digit(src[p]) {
        let e = digits_end(src, p);
        let v = decimal(src.subrange(p, e));
        if v <= 255 && i < e <= src.len() {
            let (rest, end, err) = spec_fret_list(src, e);
            (seq![Some(v as u8)] + rest, end, err)
        } else {
            (Seq::empty(), p, Some(p))
        }
    } else if src[p] == UNPLAYED_MARK {
        let (rest, end, err) = spec_fret_list(src, p + 1);
        (seq![None] + rest, end, err)
    } else {
        (Seq::empty(), p, None)
    }
}

/// The duration tweak at `q`, if one is there, and the position after it.
pub open spec fn spec_tweak_at(src: Seq<u8>, q: int) -> (Option<DurationTweak>, int) {
    if 0 <= q < src.len() && spec_tweak_mark(src[q]) is Some {
        (spec_tweak_mark(src[q]), q + 1)
    } else {
        (None, q)
    }
}

pub open spec fn prefix_frets(
    prefix: Seq<Option<u8>>,
    r: (Seq<Option<u8>>, int, Option<int>),
) -> (Seq<Option<u8>>, int, Option<int>) {
    (prefix + r.0, r.1, r.2)
}

proof fn lemma_fret_list_end(src: Seq<u8>, i: int)
    requires
        0 <= i <= src.len(),
    ensures
        i <= spec_fret_list(src, i).1 <= src.len(),
    decreases src.len() - i,
{
    let p = skip_space(src, i);
    lemma_skip_space_bounds(src, i);
    if p < src.len() && is_digit(src[p]) {
        let e = digits_end(src, p);
        lemma_digits_end_bounds(src, p);
        if decimal(src.subrange(p, e)) <= 255 && i < e <= src.len() {
            lemma_fret_list_end(src, e);
        }
    } else if p < src.len() && src[p] == UNPLAYED_MARK {
        lemma_fret_list_end(src, p + 1);
    }
}

impl ShapeDsl {
    /// Reads frets from `start` until something other than a fret or
    /// whitespace, then an optional duration tweak. The frets are stored in
    /// reverse of the order written, so that the last one written is string
    /// 0. In multi-entry mode the shape must be written inside parentheses.
    pub fn parse_without_paren(src: &[u8], start: usize, multied: bool, with_paren: bool) -> (r:
        Result<(ShapeDsl, usize), ParseError>)
        requires
            start <= src@.len(),
        ensures
            multied && !with_paren ==> r == Err::<(ShapeDsl, usize), ParseError>(
                ParseError { kind: ErrorKind::MalformedToken, offset: start },
            ),
            !(multied && !with_paren) ==> ({
                let (list, end, err) = spec_fret_list(src@, start as int);
                match err {
                    Some(o) => r == Err::<(ShapeDsl, usize), ParseError>(
                        ParseError { kind: ErrorKind::MalformedToken, offset: o as usize },
                    ),
                    None => r matches Ok((shape, next)) && shape.frets@ == list.reverse()
                        && shape.duration_tweak == spec_tweak_at(src@, end).0 && next
                        == spec_tweak_at(src@, end).1,
                }
            }),
            r matches Ok((_, next)) ==> start <= next <= src@.len(),
    {
        if multied && !with_paren {
            return Err(ParseError::new(ErrorKind::MalformedToken, start));
        }
        let mut frets: Vec<Option<u8>> = Vec::new();
        let mut i = start;
        proof {
            lemma_fret_list_end(src@, start as int);
        }
        loop
            invariant
                start <= i <= src@.len(),
                !(multied && !with_paren),
                prefix_frets(frets@, spec_fret_list(src@, i as int)) == spec_fret_list(
                    src@,
                    start as int,
                ),
            decreases src@.len() - i,
        {
            let p = find_non_space(src, i);
            proof {
                lemma_skip_space_bounds(src@, i as int);
            }
            if p < src.len() && byte_is_digit(src[p]) {
                let e = find_digits_end(src, p);
                proof {
                    lemma_digit_run(src@, p as int);
                }
                match parse_byte_value(src, p, e) {
                    Some(v) => {
                        if e > i {
                            proof {
                                let r = spec_fret_list(src@, e as int);
                                assert(spec_fret_list(src@, i as int) == (
                                    seq![Some(v)] + r.0,
                                    r.1,
                                    r.2,
                                ));
                                assert(frets@ + (seq![Some(v)] + r.0) =~= frets@.push(
                                    Some(v),
                                ) + r.0);
                            }
                            frets.push(Some(v));
                            i = e;
                        } else {
                            return Err(ParseError::new(ErrorKind::MalformedToken, p));
                        }
                    },
                    None => {
                        return Err(ParseError::new(ErrorKind::MalformedToken, p));
                    },
                }
            } else if p < src.len() && src[p] == UNPLAYED_MARK {
                proof {
                    let r = spec_fret_list(src@, p as int + 1);
                    assert(frets@ + (seq![None] + r.0) =~= frets@.push(None) + r.0);
                }
                frets.push(None);
                i = p + 1;
            } else {
                proof {
                    assert(frets@ + Seq::<Option<u8>>::empty() =~= frets@);
                }
                let ghost written = frets@;
                let mut reversed: Vec<Option<u8>> = Vec::new();
                let mut k = frets.len();
                while k > 0
                    invariant
                        k <= frets@.len(),
                        frets@ == written,
                        reversed@ == written.subrange(k as int, written.len() as int).reverse(),
                    decreases k,
                {
                    k = k - 1;
                    reversed.push(frets[k]);
                    assert(reversed@ =~= written.subrange(k as int, written.len() as int).reverse());
                }
                assert(written.subrange(0, written.len() as int) =~= written);
                let (duration_tweak, next) = if p < src.len() {
                    match tweak_mark(src[p]) {
                        Some(t) => (Some(t), p + 1),
                        None => (None, p),
                    }
                } else {
                    (None, p)
                };
                return Ok((ShapeDsl { frets: reversed, duration_tweak }, next));
            }
        }
    }
}

} // verus!
