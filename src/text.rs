//! Byte-level scanning of notation source: whitespace, tokens, digit runs
//! and fixed words.

use vstd::prelude::*;

verus! {

pub open spec fn is_space(b: u8) -> bool {
    b == 0x20u8 || b == 0x09u8 || b == 0x0au8 || b == 0x0du8
}

pub open spec fn is_digit(b: u8) -> bool {
    0x30u8 <= b <= 0x39u8
}

/// The first position at or after `i` that holds whitespace, or the end.
pub open spec fn token_end(src: Seq<u8>, i: int) -> int
    decreases src.len() - i,
{
    if i < 0 || i >= src.len() || is_space(src[i]) {
        if i < 0 {
            0
        } else {
            i
        }
    } else {
        token_end(src, i + 1)
    }
}

/// The first position at or after `i` that holds no whitespace, or the end.
pub open spec fn skip_space(src: Seq<u8>, i: int) -> int
    decreases src.len() - i,
{
    if i < 0 || i >= src.len() || !is_space(src[i]) {
        if i < 0 {
            0
        } else {
            i
        }
    } else {
        skip_space(src, i + 1)
    }
}

/// The first position at or after `i` that holds no digit, or the end.
pub open spec fn digits_end(src: Seq<u8>, i: int) -> int
    decreases src.len() - i,
{
    if i < 0 || i >= src.len() || !is_digit(src[i]) {
        if i < 0 {
            0
        } else {
            i
        }
    } else {
        digits_end(src, i + 1)
    }
}

/// The value of a run of decimal digits.
pub open spec fn decimal(s: Seq<u8>) -> int
    decreases s.len(),
{
    if s.len() == 0 {
        0
    } else {
        decimal(s.drop_last()) * 10 + (s.last() - 0x30u8)
    }
}

pub fn byte_is_space(b: u8) -> (r: bool)
    ensures
        r == is_space(b),
{
    b == 0x20u8 || b == 0x09u8 || b == 0x0au8 || b == 0x0du8
}

pub fn byte_is_digit(b: u8) -> (r: bool)
    ensures
        r == is_digit(b),
{
    0x30u8 <= b && b <= 0x39u8
}

pub proof fn lemma_token_end_bounds(src: Seq<u8>, i: int)
    requires
        0 <= i <= src.len(),
    ensures
        i <= token_end(src, i) <= src.len(),
    decreases src.len() - i,
{
    if i < src.len() && !is_space(src[i]) {
        lemma_token_end_bounds(src, i + 1);
    }
}

pub proof fn lemma_skip_space_bounds(src: Seq<u8>, i: int)
    requires
        0 <= i <= src.len(),
    ensures
        i <= skip_space(src, i) <= src.len(),
        skip_space(src, i) < src.len() ==> !is_space(src[skip_space(src, i)]),
    decreases src.len() - i,
{
    if i < src.len() && is_space(src[i]) {
        lemma_skip_space_bounds(src, i + 1);
    }
}

pub proof fn lemma_digits_end_bounds(src: Seq<u8>, i: int)
    requires
        0 <= i <= src.len(),
    ensures
        i <= digits_end(src, i) <= src.len(),
    decreases src.len() - i,
{
    if i < src.len() && is_digit(src[i]) {
        lemma_digits_end_bounds(src, i + 1);
    }
}

pub fn find_token_end(src: &[u8], start: usize) -> (r: usize)
    requires
        start <= src@.len(),
    ensures
        r == token_end(src@, start as int),
        start <= r <= src@.len(),
{
    let mut i = start;
    while i < src.len() && !byte_is_space(src[i])
        invariant
            start <= i <= src@.len(),
            token_end(src@, i as int) == token_end(src@, start as int),
        decreases src@.len() - i,
    {
        i = i + 1;
    }
    i
}

pub fn find_non_space(src: &[u8], start: usize) -> (r: usize)
    requires
        start <= src@.len(),
    ensures
        r == skip_space(src@, start as int),
        start <= r <= src@.len(),
{
    let mut i = start;
    while i < src.len() && byte_is_space(src[i])
        invariant
            start <= i <= src@.len(),
            skip_space(src@, i as int) == skip_space(src@, start as int),
        decreases src@.len() - i,
    {
        i = i + 1;
    }
    i
}

pub fn find_digits_end(src: &[u8], start: usize) -> (r: usize)
    requires
        start <= src@.len(),
    ensures
        r == digits_end(src@, start as int),
        start <= r <= src@.len(),
{
    let mut i = start;
    while i < src.len() && byte_is_digit(src[i])
        invariant
            start <= i <= src@.len(),
            digits_end(src@, i as int) == digits_end(src@, start as int),
        decreases src@.len() - i,
    {
        i = i + 1;
    }
    i
}

/// The number written in `src[start..end]`, when that is one to three
/// digits.
pub open spec fn spec_number(src: Seq<u8>, start: int, end: int) -> Option<int> {
    if 1 <= end - start <= 3 && digits_end(src, start) >= end {
        Some(decimal(src.subrange(start, end)))
    } else {
        None
    }
}

proof fn lemma_digits_before_end(src: Seq<u8>, i: int, k: int)
    requires
        0 <= i <= k < digits_end(src, i),
        digits_end(src, i) <= src.len(),
    ensures
        is_digit(src[k]),
    decreases k - i,
{
    if k > i {
        lemma_digits_before_end(src, i + 1, k);
    }
}

proof fn lemma_digits_run_end(src: Seq<u8>, i: int, k: int)
    requires
        0 <= i <= k <= src.len(),
        forall|j: int| i <= j < k ==> is_digit(#[trigger] src[j]),
    ensures
        digits_end(src, i) == digits_end(src, k),
    decreases k - i,
{
    if i < k {
        lemma_digits_run_end(src, i + 1, k);
    }
}

pub fn parse_number(src: &[u8], start: usize, end: usize) -> (r: Option<u32>)
    requires
        start <= end <= src@.len(),
    ensures
        match spec_number(src@, start as int, end as int) {
            Some(v) => r == Some(v as u32) && 0 <= v < 1000,
            None => r is None,
        },
{
    if end - start < 1 || end - start > 3 {
        return None;
    }
    let mut v: u32 = 0;
    let mut i = start;
    while i < end
        invariant
            start <= i <= end,
            end - start <= 3,
            end <= src@.len(),
            v as int == decimal(src@.subrange(start as int, i as int)),
            0 <= v < 1000,
            v < pow10((i - start) as nat),
            forall|j: int| start <= j < i ==> is_digit(#[trigger] src@[j]),
        decreases end - i,
    {
        if !byte_is_digit(src[i]) {
            proof {
                lemma_digits_run_end(src@, start as int, i as int);
                if digits_end(src@, start as int) >= end {
                    lemma_digits_end_bounds(src@, i as int);
                }
            }
            return None;
        }
        let d = (src[i] - 0x30u8) as u32;
        proof {
            let s = src@.subrange(start as int, i as int + 1);
            assert(s.drop_last() =~= src@.subrange(start as int, i as int));
            assert(s.last() == src@[i as int]);
            assert(v * 10 + d < pow10((i - start + 1) as nat)) by {
                assert(pow10((i - start + 1) as nat) == 10 * pow10((i - start) as nat));
            }
            assert(pow10((i - start + 1) as nat) <= 1000) by {
                lemma_pow10_small((i - start + 1) as nat);
            }
        }
        v = v * 10 + d;
        i = i + 1;
    }
    proof {
        lemma_digits_run_end(src@, start as int, end as int);
        lemma_digits_end_bounds(src@, end as int);
    }
    Some(v)
}

pub open spec fn pow10(n: nat) -> int
    decreases n,
{
    if n == 0 {
        1
    } else {
        10 * pow10((n - 1) as nat)
    }
}

proof fn lemma_pow10_small(n: nat)
    requires
        n <= 3,
    ensures
        pow10(n) <= 1000,
{
    assert(pow10(0) == 1);
    assert(pow10(1) == 10);
    assert(pow10(2) == 100);
    assert(pow10(3) == 1000);
}

/// Whether `src[start..end]` spells `word`.
pub fn matches_word(src: &[u8], start: usize, end: usize, word: &Vec<u8>) -> (r: bool)
    requires
        start <= end <= src@.len(),
    ensures
        r == (src@.subrange(start as int, end as int) == word@),
{
    if end - start != word.len() {
        return false;
    }
    let mut i: usize = 0;
    while i < word.len()
        invariant
            0 <= i <= word@.len(),
            end - start == word@.len(),
            end <= src@.len(),
            forall|j: int| 0 <= j < i ==> src@[start + j] == #[trigger] word@[j],
        decreases word@.len() - i,
    {
        if src[start + i] != word[i] {
            assert(src@.subrange(start as int, end as int)[i as int] != word@[i as int]);
            return false;
        }
        i = i + 1;
    }
    assert(src@.subrange(start as int, end as int) =~= word@);
    true
}

/// The first position in `[i, end)` holding `b`, or `end`.
pub open spec fn find_byte(src: Seq<u8>, i: int, end: int, b: u8) -> int
    decreases end - i,
{
    if i >= end {
        end
    } else if src[i] == b {
        i
    } else {
        find_byte(src, i + 1, end, b)
    }
}

pub fn find_byte_in(src: &[u8], start: usize, end: usize, b: u8) -> (r: usize)
    requires
        start <= end <= src@.len(),
    ensures
        r == find_byte(src@, start as int, end as int, b),
        start <= r <= end,
{
    let mut i = start;
    while i < end && src[i] != b
        invariant
            start <= i <= end,
            end <= src@.len(),
            find_byte(src@, i as int, end as int, b) == find_byte(
                src@,
                start as int,
                end as int,
                b,
            ),
        decreases end - i,
    {
        i = i + 1;
    }
    i
}

/// Every byte of `src[a..b]` is ASCII.
pub open spec fn ascii_range(src: Seq<u8>, a: int, b: int) -> bool {
    forall|k: int| a <= k < b ==> #[trigger] src[k] < 0x80u8
}

/// The characters of the ASCII bytes `src[a..b]`.
pub open spec fn ascii_text(src: Seq<u8>, a: int, b: int) -> Seq<char> {
    Seq::new((b - a) as nat, |k: int| src[a + k] as char)
}

pub fn is_ascii_range(src: &[u8], a: usize, b: usize) -> (r: bool)
    requires
        a <= b <= src@.len(),
    ensures
        r == ascii_range(src@, a as int, b as int),
{
    let mut k = a;
    while k < b
        invariant
            a <= k <= b,
            b <= src@.len(),
            ascii_range(src@, a as int, k as int),
        decreases b - k,
    {
        if src[k] >= 0x80u8 {
            return false;
        }
        k = k + 1;
    }
    true
}

/// Relies on `String::push`: the character is appended at the end.
#[verifier::external_body]
fn push_char(s: &mut String, c: char)
    ensures
        final(s)@ == old(s)@.push(c),
{
    s.push(c)
}

/// The text of the ASCII bytes `src[a..b]`.
pub fn ascii_string(src: &[u8], a: usize, b: usize) -> (r: String)
    requires
        a <= b <= src@.len(),
        ascii_range(src@, a as int, b as int),
    ensures
        r@ == ascii_text(src@, a as int, b as int),
{
    let mut out = String::new();
    append_ascii(&mut out, src, a, b);
    assert(out@ =~= ascii_text(src@, a as int, b as int));
    out
}

/// Every byte of `src[a..b]` is a digit.
pub open spec fn all_digits(src: Seq<u8>, a: int, b: int) -> bool {
    forall|k: int| a <= k < b ==> is_digit(#[trigger] src[k])
}

proof fn lemma_decimal_nonneg(src: Seq<u8>, a: int, b: int)
    requires
        0 <= a <= b <= src.len(),
        all_digits(src, a, b),
    ensures
        decimal(src.subrange(a, b)) >= 0,
    decreases b - a,
{
    if b > a {
        assert(src.subrange(a, b).drop_last() =~= src.subrange(a, b - 1));
        lemma_decimal_nonneg(src, a, b - 1);
    }
}

/// A longer run of digits reads as a number at least as large.
proof fn lemma_decimal_grows(src: Seq<u8>, a: int, i: int, b: int)
    requires
        0 <= a <= i <= b <= src.len(),
        all_digits(src, a, b),
    ensures
        decimal(src.subrange(a, i)) <= decimal(src.subrange(a, b)),
    decreases b - i,
{
    if i < b {
        lemma_decimal_grows(src, a, i, b - 1);
        assert(src.subrange(a, b).drop_last() =~= src.subrange(a, b - 1));
        lemma_decimal_nonneg(src, a, b - 1);
    }
}

/// The value of the digits `src[a..b]`, when it is at most 255, however many
/// digits (leading zeros included) it is written with.
pub fn parse_byte_value(src: &[u8], a: usize, b: usize) -> (r: Option<u8>)
    requires
        a <= b <= src@.len(),
        all_digits(src@, a as int, b as int),
    ensures
        decimal(src@.subrange(a as int, b as int)) <= 255 ==> r == Some(
            decimal(src@.subrange(a as int, b as int)) as u8,
        ),
        decimal(src@.subrange(a as int, b as int)) > 255 ==> r is None,
{
    let mut v: u32 = 0;
    let mut i = a;
    proof {
        lemma_decimal_nonneg(src@, a as int, b as int);
    }
    while i < b
        invariant
            a <= i <= b,
            b <= src@.len(),
            all_digits(src@, a as int, b as int),
            v as int == decimal(src@.subrange(a as int, i as int)),
            v <= 255,
        decreases b - i,
    {
        let d = (src[i] - 0x30u8) as u32;
        proof {
            let t = src@.subrange(a as int, i as int + 1);
            assert(t.drop_last() =~= src@.subrange(a as int, i as int));
            assert(t.last() == src@[i as int]);
        }
        v = v * 10 + d;
        i = i + 1;
        if v > 255 {
            proof {
                lemma_decimal_grows(src@, a as int, i as int, b as int);
            }
            return None;
        }
    }
    Some(v as u8)
}

/// Every position from `i` up to the end of its digit run holds a digit.
pub proof fn lemma_digit_run(src: Seq<u8>, i: int)
    requires
        0 <= i <= src.len(),
    ensures
        all_digits(src, i, digits_end(src, i)),
        i <= digits_end(src, i) <= src.len(),
{
    lemma_digits_end_bounds(src, i);
    assert forall|k: int| i <= k < digits_end(src, i) implies is_digit(#[trigger] src[k]) by {
        lemma_digits_before_end(src, i, k);
    }
}

pub proof fn lemma_find_byte(src: Seq<u8>, i: int, end: int, b: u8)
    requires
        0 <= i <= end <= src.len(),
    ensures
        i <= find_byte(src, i, end, b) <= end,
        find_byte(src, i, end, b) < end ==> src[find_byte(src, i, end, b)] == b,
    decreases end - i,
{
    if i < end && src[i] != b {
        lemma_find_byte(src, i + 1, end, b);
    }
}

/// Appends the characters of `cs`.
pub fn append_chars(s: &mut String, cs: &Vec<char>)
    ensures
        final(s)@ == old(s)@ + cs@,
{
    let mut k: usize = 0;
    while k < cs.len()
        invariant
            0 <= k <= cs@.len(),
            s@ == old(s)@ + cs@.subrange(0, k as int),
        decreases cs@.len() - k,
    {
        push_char(s, cs[k]);
        k = k + 1;
        assert(s@ =~= old(s)@ + cs@.subrange(0, k as int));
    }
    assert(cs@.subrange(0, k as int) =~= cs@);
}

/// Appends the text of the ASCII bytes `src[a..b]`.
pub fn append_ascii(s: &mut String, src: &[u8], a: usize, b: usize)
    requires
        a <= b <= src@.len(),
        ascii_range(src@, a as int, b as int),
    ensures
        final(s)@ == old(s)@ + ascii_text(src@, a as int, b as int),
{
    let mut k = a;
    while k < b
        invariant
            a <= k <= b,
            b <= src@.len(),
            s@ == old(s)@ + ascii_text(src@, a as int, k as int),
        decreases b - k,
    {
        push_char(s, src[k] as char);
        k = k + 1;
        assert(s@ =~= old(s)@ + ascii_text(src@, a as int, k as int));
    }
}

} // verus!
