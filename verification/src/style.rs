//! Styling: the few pieces of text that the display shows in colour. What the
//! terminal library wraps around a text to colour it is not fixed: it depends
//! on the machine and on the environment of the process. So the styled pieces
//! are made once, kept in a `Theme`, and the layout takes them as they are.
//!
//! One thing the layout does count on: a styled piece shows on the terminal
//! as the bare text would, since rows are padded for the bare text. A piece
//! that does not is not used, and the bare text stands in for it.

use vstd::prelude::*;
use vstd::string::StringExecFns;
use crate::width::{is_unstyled, plain_text, Unformattable};

verus! {

/// The title of every box.
pub open spec fn title_text() -> Seq<char> {
    "Deployment Copy"@
}

/// The key that confirms the copy, as the prompt shows it.
pub open spec fn yes_key_text() -> Seq<char> {
    "[Y]"@
}

/// The key that declines the copy, as the prompt shows it.
pub open spec fn no_key_text() -> Seq<char> {
    "[N]"@
}

/// The styled pieces of the display.
#[derive(Debug)]
pub struct Theme {
    pub title: String,
    pub yes_key: String,
    pub no_key: String,
}

/// A theme as plain text.
pub struct ThemeView {
    pub title: Seq<char>,
    pub yes_key: Seq<char>,
    pub no_key: Seq<char>,
}

impl View for Theme {
    type V = ThemeView;

    open spec fn view(&self) -> ThemeView {
        ThemeView { title: self.title@, yes_key: self.yes_key@, no_key: self.no_key@ }
    }
}

impl ThemeView {
    /// Each piece shows on a terminal as its bare text.
    pub open spec fn shows_bare_texts(self) -> bool {
        &&& plain_text(self.title) == title_text()
        &&& plain_text(self.yes_key) == yes_key_text()
        &&& plain_text(self.no_key) == no_key_text()
    }
}

/// The piece to use for a bare text, given what styling made of it: the
/// styled text, if it shows as the bare text does, and the bare text if not.
pub open spec fn settled(styled: Seq<char>, bare: Seq<char>) -> Seq<char> {
    if plain_text(styled) == plain_text(bare) {
        styled
    } else {
        bare
    }
}

/// Decides between a styled text and the bare text it was made from: the
/// styled text is kept only if a terminal shows the same for both.
pub fn settle(styled: String, bare: &str) -> (piece: String)
    ensures
        piece@ == settled(styled@, bare@),
        plain_text(piece@) == plain_text(bare@),
        is_unstyled(bare@) ==> plain_text(piece@) == bare@,
{
    let bare_text = String::from_str(bare);
    let shown = styled.unformat();
    let wanted = bare_text.unformat();
    if shown == wanted {
        styled
    } else {
        bare_text
    }
}

/// The text in magenta.
///
/// Trusted: the body formats `crossterm::style::Stylize::magenta` of the
/// text. Nothing is claimed of the result, which changes with the platform
/// and with the `NO_COLOR` setting of the process.
#[verifier::external_body]
fn magenta(text: &str) -> String {
    format!("{}", crossterm::style::Stylize::magenta(text))
}

/// The text in bold dark grey.
///
/// Trusted: the body formats `crossterm::style::Stylize::dark_grey` of the
/// text, made bold with `Stylize::bold`. Nothing is claimed of the result,
/// for the same reason as for `magenta`.
#[verifier::external_body]
fn dark_grey_bold(text: &str) -> String {
    format!("{}", crossterm::style::Stylize::bold(crossterm::style::Stylize::dark_grey(text)))
}

impl Theme {
    /// The theme without any styling: each piece is its bare text.
    pub fn plain() -> (theme: Theme)
        ensures
            theme@.title == title_text(),
            theme@.yes_key == yes_key_text(),
            theme@.no_key == no_key_text(),
    {
        Theme {
            title: String::from_str("Deployment Copy"),
            yes_key: String::from_str("[Y]"),
            no_key: String::from_str("[N]"),
        }
    }

    /// The theme for a terminal: the title in magenta, the two keys in bold
    /// dark grey. What the terminal library wraps around each text is up to
    /// it, but each piece shows as its bare text: where the library hands
    /// back anything else, the bare text is used.
    pub fn terminal() -> (theme: Theme)
        ensures
            theme@.shows_bare_texts(),
    {
        proof {
            reveal_strlit("Deployment Copy");
            reveal_strlit("[Y]");
            reveal_strlit("[N]");
        }
        Theme {
            title: settle(magenta("Deployment Copy"), "Deployment Copy"),
            yes_key: settle(dark_grey_bold("[Y]"), "[Y]"),
            no_key: settle(dark_grey_bold("[N]"), "[N]"),
        }
    }
}

} // verus!
