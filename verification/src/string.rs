//! Text building blocks: appending characters, repeating a glyph, writing a
//! number in decimal, and cutting a string down to a number of characters.

use vstd::prelude::*;
use vstd::string::StrSliceExecFns;

verus! {

/// Appends one character to `out`.
///
/// Trusted: this is `String::push` of the standard library, which appends
/// the given character to the end of the string.
#[verifier::external_body]
pub(crate) fn push_char(out: &mut String, c: char)
    ensures
        final(out)@ == old(out)@.push(c),
{
    out.push(c);
}

/// `count` copies of the glyph `c`.
pub open spec fn repeated(c: char, count: nat) -> Seq<char> {
    Seq::new(count, |i: int| c)
}

/// Appends `count` copies of `c` to `out`.
pub fn push_repeated(out: &mut String, c: char, count: usize)
    ensures
        final(out)@ == old(out)@ + repeated(c, count as nat),
{
    let mut done: usize = 0;
    while done < count
        invariant
            done <= count,
            out@ == old(out)@ + repeated(c, done as nat),
        decreases count - done,
    {
        push_char(out, c);
        done = done + 1;
    }
}

/// The glyph of one decimal digit.
pub open spec fn digit_glyph(d: nat) -> char
    recommends
        d < 10,
{
    ((48 + d) as u8) as char
}

/// `n` written in decimal, without sign, padding or leading zeros.
pub open spec fn decimal(n: nat) -> Seq<char>
    decreases n,
{
    if n < 10 {
        seq![digit_glyph(n)]
    } else {
        decimal(n / 10).push(digit_glyph(n % 10))
    }
}

/// Appends `n` in decimal to `out`.
pub fn push_decimal(out: &mut String, n: u64)
    ensures
        final(out)@ == old(out)@ + decimal(n as nat),
    decreases n,
{
    if n >= 10 {
        push_decimal(out, n / 10);
    }
    let digit: u8 = (n % 10) as u8;
    push_char(out, (48u8 + digit) as char);
}

/// The first `max_chars` characters of `s`, or all of `s` when it has no more
/// than that.
pub open spec fn truncated(s: Seq<char>, max_chars: nat) -> Seq<char> {
    if s.len() <= max_chars {
        s
    } else {
        s.take(max_chars as int)
    }
}

/// Cuts `s` down to at most `max_chars` characters, counted as characters and
/// not as bytes. A string that is short enough comes back whole.
pub fn truncate(s: &str, max_chars: usize) -> (r: String)
    ensures
        r@ == truncated(s@, max_chars as nat),
        r@.len() <= max_chars,
        s@.len() <= max_chars ==> r@ == s@,
{
    let count: usize = s.unicode_len();
    if count <= max_chars {
        s.to_owned()
    } else {
        s.substring_char(0, max_chars).to_owned()
    }
}

/// Truncating twice to the same length changes nothing the second time.
pub proof fn lemma_truncate_idempotent(s: Seq<char>, max_chars: nat)
    ensures
        truncated(truncated(s, max_chars), max_chars) == truncated(s, max_chars),
{
}

/// A truncated string never has more than `max_chars` characters, and it is a
/// prefix of the string it was cut from.
pub proof fn lemma_truncate_is_bounded_prefix(s: Seq<char>, max_chars: nat)
    ensures
        truncated(s, max_chars).len() <= max_chars,
        truncated(s, max_chars).len() <= s.len(),
        truncated(s, max_chars) == s.take(truncated(s, max_chars).len() as int),
{
}

} // verus!
