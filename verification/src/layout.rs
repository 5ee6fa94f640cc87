//! Box layout: the borders, rows and column positions of the boxes that the
//! display is made of. Every box is `BOX_WIDTH` columns wide inside its frame.

use vstd::prelude::*;
use vstd::string::StrSliceExecFns;
use vstd::string::StringExecFns;
use crate::string::{push_char, push_repeated, repeated, truncate, truncated};
use crate::width::{is_unstyled, plain_text, visible_length};

verus! {

pub const VERTICAL_CHAR: char = '│';

pub const HORIZONTAL_CHAR: char = '─';

pub const SPLIT_RIGHT: char = '┤';

pub const SPLIT_LEFT: char = '├';

pub const SPLIT_ABOVE: char = '┬';

pub const SPLIT_BELOW: char = '┴';

pub const BOTTOM_LEFT_CHAR: char = '╰';

pub const BOTTOM_RIGHT_CHAR: char = '╯';

pub const TOP_LEFT_CHAR: char = '╭';

pub const TOP_RIGHT_CHAR: char = '╮';

pub const ARROW_HEAD: char = '>';

/// Columns between the two vertical rules of a box.
pub const BOX_WIDTH: usize = 51;

/// The most characters of the source name that the queue box shows.
pub const NAME_WIDTH: usize = 15;

/// A horizontal rule between two end glyphs: `BOX_WIDTH` rule glyphs framed
/// by `left` and `right`.
pub open spec fn rule(left: char, right: char) -> Seq<char> {
    seq![left] + repeated(HORIZONTAL_CHAR, BOX_WIDTH as nat) + seq![right]
}

/// A rule with a junction glyph put in: the glyph at column `at`, counted
/// from the left end glyph as column 0, is replaced. A split at column 0 or
/// beyond the line leaves the rule as it is.
pub open spec fn split_rule(left: char, right: char, split: Option<(usize, char)>) -> Seq<char> {
    match split {
        Some((at, glyph)) => if 0 < at < rule(left, right).len() {
            rule(left, right).update(at as int, glyph)
        } else {
            rule(left, right)
        },
        None => rule(left, right),
    }
}

/// The text of the top border of a box.
pub open spec fn top_border_text(split: Option<(usize, char)>) -> Seq<char> {
    split_rule(TOP_LEFT_CHAR, TOP_RIGHT_CHAR, split)
}

/// The text of the bottom border of a box.
pub open spec fn bottom_border_text(split: Option<(usize, char)>) -> Seq<char> {
    split_rule(BOTTOM_LEFT_CHAR, BOTTOM_RIGHT_CHAR, split)
}

/// The text of the rule that parts the title from the body of a box.
pub open spec fn divider_text() -> Seq<char> {
    rule(SPLIT_LEFT, SPLIT_RIGHT)
}

/// The spaces that follow a text of `visible` columns in a row: what is left
/// of the box width after the text and the one column before it, and none
/// when the text leaves no room.
pub open spec fn padding(visible: nat) -> nat {
    if visible + 1 <= BOX_WIDTH {
        (BOX_WIDTH - visible - 1) as nat
    } else {
        0
    }
}

/// One interior row: a vertical rule, a space, the text, the padding for a
/// text that shows `visible` columns, and the closing vertical rule.
pub open spec fn content_row(text: Seq<char>, visible: nat) -> Seq<char> {
    seq![VERTICAL_CHAR, ' '] + text + repeated(' ', padding(visible)) + seq![VERTICAL_CHAR]
}

/// The column of the junction between the source column and the destination
/// column, for a source name of `name_len` characters.
pub open spec fn column_split_at(name_len: nat) -> nat {
    if name_len <= NAME_WIDTH {
        name_len + 4
    } else {
        (NAME_WIDTH + 4) as nat
    }
}

/// The row that carries the arrow in a queue of `count` destinations; rows
/// count from 0. An empty queue has no such row.
pub open spec fn arrow_row_of(count: nat) -> Option<nat> {
    if count == 0 {
        None
    } else if count <= 2 {
        Some(1nat)
    } else {
        Some(count / 2)
    }
}

/// What the arrow row shows before its destination: the source name, cut to
/// `NAME_WIDTH` characters, a space, a rule of two glyphs, the arrow head and
/// two spaces.
pub open spec fn arrow_cell_text(source: Seq<char>) -> Seq<char> {
    truncated(source, NAME_WIDTH as nat) + seq![' '] + repeated(HORIZONTAL_CHAR, 2) + seq![
        ARROW_HEAD,
        ' ',
        ' ',
    ]
}

/// What every other row shows before its destination: a vertical rule set
/// flush right in `split - 1` columns, and a gap of three spaces, which puts
/// the destination where the arrow row has it.
pub open spec fn plain_cell_text(split: nat) -> Seq<char> {
    repeated(' ', if split >= 2 { (split - 2) as nat } else { 0 }) + seq![VERTICAL_CHAR]
        + repeated(' ', 3)
}

/// The text of one row of the queue box: the cell of the source column and
/// the destination path.
pub open spec fn queue_row_text(
    source: Seq<char>,
    destination: Seq<char>,
    carries_arrow: bool,
) -> Seq<char> {
    if carries_arrow {
        arrow_cell_text(source) + destination
    } else {
        plain_cell_text(column_split_at(source.len())) + destination
    }
}

fn ruled_line(left: char, right: char, split: Option<(usize, char)>) -> (line: String)
    ensures
        line@ == split_rule(left, right, split),
{
    let total: usize = BOX_WIDTH + 2;
    let ghost goal = split_rule(left, right, split);
    let mut line = String::new();
    let mut column: usize = 0;
    while column < total
        invariant
            column <= total,
            total == BOX_WIDTH + 2,
            goal == split_rule(left, right, split),
            goal.len() == total,
            line@ == goal.take(column as int),
        decreases total - column,
    {
        let plain: char = if column == 0 {
            left
        } else if column == total - 1 {
            right
        } else {
            HORIZONTAL_CHAR
        };
        let glyph: char = match split {
            Some((at, junction)) => if at == column && at > 0 {
                junction
            } else {
                plain
            },
            None => plain,
        };
        push_char(&mut line, glyph);
        column = column + 1;
    }
    line
}

/// The top border of a box: a rounded corner, the rule, a rounded corner.
/// With a split, the glyph at that column gives way to the junction glyph.
pub fn top_border(split: Option<(usize, char)>) -> (line: String)
    ensures
        line@ == top_border_text(split),
        line@.len() == BOX_WIDTH + 2,
{
    ruled_line(TOP_LEFT_CHAR, TOP_RIGHT_CHAR, split)
}

/// The bottom border of a box, with the same rule for a split as the top.
pub fn bottom_border(split: Option<(usize, char)>) -> (line: String)
    ensures
        line@ == bottom_border_text(split),
        line@.len() == BOX_WIDTH + 2,
{
    ruled_line(BOTTOM_LEFT_CHAR, BOTTOM_RIGHT_CHAR, split)
}

/// The rule between the title and the body of a box.
pub fn divider() -> (line: String)
    ensures
        line@ == divider_text(),
        line@.len() == BOX_WIDTH + 2,
{
    ruled_line(SPLIT_LEFT, SPLIT_RIGHT, None)
}

/// One interior row for a text that is known to show `visible` columns.
pub fn content_line_padded(text: &str, visible: usize) -> (line: String)
    ensures
        line@ == content_row(text@, visible as nat),
{
    let pad: usize = if visible < BOX_WIDTH {
        BOX_WIDTH - visible - 1
    } else {
        0
    };
    let mut line = String::new();
    push_char(&mut line, VERTICAL_CHAR);
    push_char(&mut line, ' ');
    line.append(text);
    push_repeated(&mut line, ' ', pad);
    push_char(&mut line, VERTICAL_CHAR);
    line
}

/// One interior row: the text between two vertical rules, padded with spaces
/// to the box width as measured by what the text shows on a terminal. A text
/// too long for the box gets no padding.
pub fn content_line(text: &str) -> (line: String)
    ensures
        line@ == content_row(text@, plain_text(text@).len()),
        is_unstyled(text@) ==> line@ == content_row(text@, text@.len()),
{
    let visible: usize = visible_length(text);
    content_line_padded(text, visible)
}

/// The column at which the queue box is split, for a given source name: the
/// length of the name in characters, at most `NAME_WIDTH`, and 4 more.
pub fn column_split(source_name: &str) -> (column: usize)
    ensures
        column == column_split_at(source_name@.len()),
        4 <= column <= NAME_WIDTH + 4,
{
    let name_len: usize = source_name.unicode_len();
    if name_len <= NAME_WIDTH {
        name_len + 4
    } else {
        NAME_WIDTH + 4
    }
}

/// The row of the queue box that carries the arrow: none for an empty queue,
/// row 1 for one or two destinations, and half the count, rounded down, for
/// more.
pub fn arrow_row(count: usize) -> (row: Option<usize>)
    ensures
        match row {
            Some(r) => arrow_row_of(count as nat) == Some(r as nat),
            None => arrow_row_of(count as nat) == None::<nat>,
        },
{
    if count == 0 {
        None
    } else if count <= 2 {
        Some(1)
    } else {
        Some(count / 2)
    }
}

/// The text of one row of the queue box, for the row that carries the arrow
/// or for one that does not.
pub fn queue_row(source: &str, destination: &str, carries_arrow: bool) -> (row: String)
    ensures
        row@ == queue_row_text(source@, destination@, carries_arrow),
{
    if carries_arrow {
        let mut row = truncate(source, NAME_WIDTH);
        push_char(&mut row, ' ');
        push_repeated(&mut row, HORIZONTAL_CHAR, 2);
        push_char(&mut row, ARROW_HEAD);
        push_char(&mut row, ' ');
        push_char(&mut row, ' ');
        row.append(destination);
        row
    } else {
        let split: usize = column_split(source);
        let mut row = String::new();
        push_repeated(&mut row, ' ', split - 2);
        push_char(&mut row, VERTICAL_CHAR);
        push_repeated(&mut row, ' ', 3);
        row.append(destination);
        row
    }
}

/// In both kinds of row the destination starts at the same column: two
/// columns beyond the split.
pub proof fn lemma_destinations_line_up(source: Seq<char>)
    ensures
        arrow_cell_text(source).len() == plain_cell_text(column_split_at(source.len())).len(),
        arrow_cell_text(source).len() == column_split_at(source.len()) + 2,
{
}

/// In a row without the arrow, the vertical rule of the cell stands in the
/// column under the junction of the border: the row's text starts two
/// columns into the line, after the frame and a space.
pub proof fn lemma_rule_meets_junction(source: Seq<char>, destination: Seq<char>, visible: nat)
    ensures
        content_row(queue_row_text(source, destination, false), visible)[column_split_at(
            source.len(),
        ) as int] == VERTICAL_CHAR,
        top_border_text(Some((column_split_at(source.len()) as usize, SPLIT_ABOVE)))[
            column_split_at(source.len()) as int
        ] == SPLIT_ABOVE,
        bottom_border_text(Some((column_split_at(source.len()) as usize, SPLIT_BELOW)))[
            column_split_at(source.len()) as int
        ] == SPLIT_BELOW,
{
}

/// A row whose text fits is as wide as the borders: what it adds around the
/// text makes up for what the text leaves of the `BOX_WIDTH + 2` columns. A
/// text that leaves no room gets the frame and the leading space only.
pub proof fn lemma_row_fills_box(text: Seq<char>, visible: nat)
    ensures
        visible + 1 <= BOX_WIDTH ==> content_row(text, visible).len() - text.len() + visible
            == BOX_WIDTH + 2,
        visible + 1 > BOX_WIDTH ==> content_row(text, visible).len() == text.len() + 3,
        split_rule(TOP_LEFT_CHAR, TOP_RIGHT_CHAR, None).len() == BOX_WIDTH + 2,
{
}

} // verus!
