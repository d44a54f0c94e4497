use vstd::prelude::*;
use crate::lang::lexer::char_state::{is_whitespace, spec_is_whitespace};

verus! {

/// `str`'s equality, `str::eq`: two string slices are equal exactly when they hold the same
/// characters in the same order.
#[verifier::external_body]
pub(crate) fn str_eq(a: &str, b: &str) -> (r: bool)
    ensures
        r == (a@ == b@),
{
    a.eq(b)
}

/// `String::push`: appends one character to the end of the string.
#[verifier::external_body]
pub(crate) fn push_char(s: &mut String, c: char)
    ensures
        final(s)@ == old(s)@.push(c),
{
    s.push(c)
}

/// The characters of a string slice, in order.
pub fn chars_of(s: &str) -> (r: Vec<char>)
    ensures
        r@ == s@,
{
    let mut out: Vec<char> = Vec::new();
    let mut it = s.chars();
    for c in iter: it
        invariant
            out@ == iter.seq().take(iter.index()),
            iter.seq() == s@,
    {
        out.push(c);
    }
    out
}

/// The character of one decimal digit.
pub open spec fn spec_digit_char(d: nat) -> char
    recommends
        d < 10,
{
    ((48 + d) as u8) as char
}

/// A natural number written in decimal, without leading zeros.
pub open spec fn spec_decimal(n: nat) -> Seq<char>
    decreases n,
{
    if n < 10 {
        seq![spec_digit_char(n)]
    } else {
        spec_decimal(n / 10).push(spec_digit_char(n % 10))
    }
}

/// Appends the decimal form of `n` to `out`.
pub fn push_decimal(out: &mut String, n: usize)
    ensures
        final(out)@ == old(out)@ + spec_decimal(n as nat),
    decreases n,
{
    if n >= 10 {
        push_decimal(out, n / 10);
    }
    let d: u8 = (n % 10) as u8;
    push_char(out, (48u8 + d) as char);
    assert(out@ =~= old(out)@ + spec_decimal(n as nat));
}

/// Appends every character of `chars[from..to]` to `out`.
pub fn push_range(out: &mut String, chars: &Vec<char>, from: usize, to: usize)
    requires
        from <= to <= chars.len(),
    ensures
        final(out)@ == old(out)@ + chars@.subrange(from as int, to as int),
{
    let mut i: usize = from;
    assert(old(out)@ + chars@.subrange(from as int, from as int) =~= old(out)@);
    while i < to
        invariant
            from <= i <= to <= chars.len(),
            out@ == old(out)@ + chars@.subrange(from as int, i as int),
        decreases to - i,
    {
        push_char(out, chars[i]);
        i += 1;
        assert(out@ =~= old(out)@ + chars@.subrange(from as int, i as int));
    }
}

/// The number of whitespace characters that `text` begins with.
pub open spec fn spec_trim_start(text: Seq<char>) -> nat
    decreases text.len(),
{
    if text.len() > 0 && spec_is_whitespace(text[0]) {
        1 + spec_trim_start(text.drop_first())
    } else {
        0
    }
}

/// The number of whitespace characters that `text` ends with.
pub open spec fn spec_trim_end(text: Seq<char>) -> nat
    decreases text.len(),
{
    if text.len() > 0 && spec_is_whitespace(text.last()) {
        1 + spec_trim_end(text.drop_last())
    } else {
        0
    }
}

/// The text without the whitespace at its two ends.
pub open spec fn spec_trim(text: Seq<char>) -> Seq<char> {
    let from = spec_trim_start(text);
    if from == text.len() {
        Seq::empty()
    } else {
        text.subrange(from as int, text.len() - spec_trim_end(text))
    }
}

/// The text without the whitespace at its two ends.
pub fn trim<'a>(text: &'a str) -> (r: &'a str)
    ensures
        r@ == spec_trim(text@),
        r@.len() <= text@.len(),
{
    let chars = chars_of(text);
    let n = chars.len();
    let mut from: usize = 0;
    assert(chars@.skip(0) =~= chars@);
    while from < n && is_whitespace(chars[from])
        invariant
            from <= n,
            n == chars.len(),
            spec_trim_start(chars@) == from + spec_trim_start(chars@.skip(from as int)),
        decreases n - from,
    {
        assert(chars@.skip(from as int).drop_first() =~= chars@.skip(from + 1));
        from += 1;
    }
    if from == n {
        assert(spec_trim_start(chars@.skip(n as int)) == 0);
        return text.substring_char(0, 0);
    }
    let mut to: usize = n;
    assert(chars@.take(n as int) =~= chars@);
    while to > from && is_whitespace(chars[to - 1])
        invariant
            from < to <= n,
            n == chars.len(),
            !spec_is_whitespace(chars@[from as int]),
            spec_trim_end(chars@) == (n - to) + spec_trim_end(chars@.take(to as int)),
        decreases to,
    {
        assert(chars@.take(to as int).drop_last() =~= chars@.take(to - 1));
        to -= 1;
    }
    assert(spec_trim_start(chars@.skip(from as int)) == 0);
    assert(chars@.take(to as int).last() == chars@[to - 1]);
    text.substring_char(from, to)
}

/// The text without the whitespace at its end.
pub open spec fn spec_without_trailing_whitespace(text: Seq<char>) -> Seq<char> {
    text.take(text.len() - spec_trim_end(text))
}

/// The text with a tab put behind each line feed.
pub open spec fn spec_indent(text: Seq<char>) -> Seq<char>
    decreases text.len(),
{
    if text.len() == 0 {
        Seq::empty()
    } else if text.last() == '\n' {
        spec_indent(text.drop_last()) + seq!['\n', '\t']
    } else {
        spec_indent(text.drop_last()).push(text.last())
    }
}

/// Appends `text` to `out`, without the whitespace at its end and with a tab put behind each
/// line feed.
pub fn push_indented(out: &mut String, text: &str)
    ensures
        final(out)@ == old(out)@ + spec_indent(spec_without_trailing_whitespace(text@)),
{
    let chars = chars_of(text);
    let n = chars.len();
    let mut to: usize = n;
    assert(chars@.take(n as int) =~= chars@);
    while to > 0 && is_whitespace(chars[to - 1])
        invariant
            to <= n,
            n == chars.len(),
            spec_trim_end(chars@) == (n - to) + spec_trim_end(chars@.take(to as int)),
        decreases to,
    {
        assert(chars@.take(to as int).drop_last() =~= chars@.take(to - 1));
        to -= 1;
    }
    assert(spec_trim_end(chars@.take(to as int)) == 0) by {
        if to > 0 {
            assert(chars@.take(to as int).last() == chars@[to - 1]);
        }
    }
    let ghost kept = spec_without_trailing_whitespace(text@);
    assert(kept == chars@.take(to as int));
    let mut i: usize = 0;
    assert(kept.take(0) =~= Seq::<char>::empty());
    assert(old(out)@ + spec_indent(kept.take(0)) =~= old(out)@);
    while i < to
        invariant
            i <= to <= n,
            n == chars.len(),
            kept == chars@.take(to as int),
            out@ == old(out)@ + spec_indent(kept.take(i as int)),
        decreases to - i,
    {
        let c = chars[i];
        push_char(out, c);
        if c == '\n' {
            push_char(out, '\t');
        }
        assert(kept.take(i + 1).drop_last() =~= kept.take(i as int));
        assert(kept.take(i + 1).last() == c);
        assert(out@ =~= old(out)@ + spec_indent(kept.take(i + 1)));
        i += 1;
    }
    assert(kept.take(to as int) =~= kept);
}

} // verus!
