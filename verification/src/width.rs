//! Visible width: how many characters of a string a terminal actually shows
//! once the styling and colour escape sequences in it are taken away.

use vstd::prelude::*;
use vstd::string::StrSliceExecFns;

verus! {

/// What `strip_ansi_escapes::strip` makes of a text: the text with its escape
/// sequences removed, or nothing when the call reports an error.
pub uninterp spec fn strip_outcome(text: Seq<char>) -> Option<Seq<char>>;

/// A control character: the C0 range, DEL, and the C1 range.
pub open spec fn is_control(c: char) -> bool {
    (c as u32) < 0x20 || 0x7f <= (c as u32) < 0xa0
}

/// A text without any control character. An escape sequence starts with one,
/// so such a text carries no styling.
pub open spec fn is_unstyled(text: Seq<char>) -> bool {
    forall|i: int| 0 <= i < text.len() ==> !is_control(#[trigger] text[i])
}

/// The text as a terminal displays it: stripped of escape sequences, and left
/// as it is where stripping failed.
pub open spec fn plain_text(text: Seq<char>) -> Seq<char> {
    match strip_outcome(text) {
        Some(plain) => plain,
        None => text,
    }
}

/// Removes the escape sequences from `text`.
///
/// Trusted: the body calls `strip_ansi_escapes::strip` and reads the bytes it
/// returns back as UTF-8. The contract names the result of that call and
/// claims one thing of it: where the call succeeds on a text without control
/// characters, the text comes back unchanged. The parser underneath prints
/// every byte from 0x20 to 0x7f in its ground state and decodes each
/// multi-byte UTF-8 sequence into the character it stands for, which it
/// prints too.
#[verifier::external_body]
fn strip_escapes(text: &str) -> (r: Option<String>)
    ensures
        match r {
            Some(plain) => strip_outcome(text@) == Some(plain@),
            None => strip_outcome(text@) == None::<Seq<char>>,
        },
        is_unstyled(text@) ==> (r matches Some(plain) ==> plain@ == text@),
{
    match strip_ansi_escapes::strip(text) {
        Ok(bytes) => Some(String::from_utf8_lossy(&bytes).to_string()),
        Err(_) => None,
    }
}

/// Text that can give up its terminal styling.
pub trait Unformattable: Sized {
    /// A copy of the value without escape sequences.
    fn unformat(&self) -> Self;
}

impl Unformattable for String {
    fn unformat(&self) -> (r: String)
        ensures
            r@ == plain_text(self@),
            is_unstyled(self@) ==> r@ == self@,
    {
        match strip_escapes(self.as_str()) {
            Some(plain) => plain,
            None => self.clone(),
        }
    }
}

/// The number of characters of `text` that a terminal shows: its length in
/// characters, not bytes, after the escape sequences are removed. For a text
/// without control characters that is simply its length.
pub fn visible_length(text: &str) -> (n: usize)
    ensures
        n == plain_text(text@).len(),
        is_unstyled(text@) ==> n == text@.len(),
{
    match strip_escapes(text) {
        Some(plain) => plain.as_str().unicode_len(),
        None => text.unicode_len(),
    }
}

} // verus!
