//! The display: a state that is exactly one of "about to copy", "copying" and
//! "done", and the drawing of each as boxes of text.
//!
//! Nothing here writes to a terminal. Rendering gives the commands to draw
//! with, in order; the program around this crate carries them out.

use std::sync::mpsc::Receiver;
use vstd::prelude::*;
use vstd::string::StrSliceExecFns;
use vstd::string::StringExecFns;
use crate::bytes::{formatted, ByteFormatter};
use crate::copy::{CopyQueue, QueueView};
use crate::layout::{
    arrow_row, arrow_row_of, bottom_border, bottom_border_text, column_split, column_split_at,
    content_line, content_line_padded, content_row, divider, divider_text, queue_row,
    queue_row_text, top_border, top_border_text, SPLIT_ABOVE, SPLIT_BELOW,
};
use crate::progress::CopyingStateView;
use crate::string::{decimal, push_decimal};
use crate::style::{title_text, Theme, ThemeView};
use crate::width::plain_text;

pub use crate::progress::CopyingState;
pub use crate::width::Unformattable;

verus! {

/// The receiving end of a channel of the standard library, through which the
/// copy worker sends its progress reports. It is carried along and never
/// looked into.
#[verifier::external_type_specification]
#[verifier::external_body]
#[verifier::reject_recursive_types(T)]
pub struct ExReceiver<T>(Receiver<T>);

/// One step of drawing, named after the terminal command that carries it
/// out.
#[derive(Debug)]
pub enum DrawCommand {
    /// Put the cursor at this column and row, both counted from 0.
    MoveTo(u16, u16),
    /// Write this text at the cursor.
    Print(String),
    /// Put the cursor at the start of the line this many lines down.
    MoveToNextLine(u16),
    /// Clear the line that the cursor is on.
    ClearLine,
}

/// A drawing step as plain values.
pub enum DrawOp {
    MoveTo(u16, u16),
    Print(Seq<char>),
    MoveToNextLine(u16),
    ClearLine,
}

impl View for DrawCommand {
    type V = DrawOp;

    open spec fn view(&self) -> DrawOp {
        match self {
            DrawCommand::MoveTo(column, row) => DrawOp::MoveTo(*column, *row),
            DrawCommand::Print(text) => DrawOp::Print(text@),
            DrawCommand::MoveToNextLine(lines) => DrawOp::MoveToNextLine(*lines),
            DrawCommand::ClearLine => DrawOp::ClearLine,
        }
    }
}

impl DeepView for DrawCommand {
    type V = DrawOp;

    open spec fn deep_view(&self) -> DrawOp {
        self@
    }
}

/// The row of the screen that shows the progress while the copy runs: the
/// first row under the three lines of the header.
pub const PROGRESS_ROW: u16 = 3;

/// A row padded by what its text shows on a terminal.
pub open spec fn measured_row(text: Seq<char>) -> Seq<char> {
    content_row(text, plain_text(text).len())
}

/// The header of every box: the top border, the title row, the divider. The
/// title row is padded for the width of the bare title, whatever styling the
/// theme has put around it.
pub open spec fn header_text(theme: ThemeView) -> Seq<Seq<char>> {
    seq![top_border_text(None), content_row(theme.title, title_text().len()), divider_text()]
}

/// The question of the first box.
pub open spec fn question_text() -> Seq<char> {
    "Do you want to copy to these directories?"@
}

/// The prompt of the first box, with the two keys as the theme styles them.
pub open spec fn prompt_text(theme: ThemeView) -> Seq<char> {
    "Press "@ + theme.yes_key + " or "@ + theme.no_key + " on your keyboard"@
}

/// The texts of the rows of the queue box, one for each destination.
pub open spec fn queue_rows_text(queue: QueueView) -> Seq<Seq<char>> {
    Seq::new(
        queue.destinations.len(),
        |row: int|
            queue_row_text(
                queue.source,
                queue.destinations[row],
                arrow_row_of(queue.destinations.len()) == Some(row as nat),
            ),
    )
}

/// The junction of the queue box: its column, which follows from the source
/// name, and the glyph to put there.
pub open spec fn queue_split(queue: QueueView, glyph: char) -> Option<(usize, char)> {
    Some((column_split_at(queue.source.len()) as usize, glyph))
}

/// The queue box: a top border with a junction, a row for each destination,
/// a bottom border with the matching junction.
pub open spec fn queue_box_text(queue: QueueView) -> Seq<Seq<char>> {
    seq![top_border_text(queue_split(queue, SPLIT_ABOVE))] + queue_rows_text(queue).map_values(
        |text: Seq<char>| measured_row(text),
    ) + seq![bottom_border_text(queue_split(queue, SPLIT_BELOW))]
}

/// The screen before the copy: the box with the question and the prompt, and
/// the queue box under it.
pub open spec fn pre_copy_text(queue: QueueView, theme: ThemeView) -> Seq<Seq<char>> {
    header_text(theme) + seq![
        measured_row(question_text()),
        measured_row(prompt_text(theme)),
        bottom_border_text(None),
    ] + queue_box_text(queue)
}

/// What the progress row says: the bytes copied, the percentage, and the
/// destination that is written to.
pub open spec fn progress_text(state: CopyingStateView) -> Seq<char> {
    formatted(state.bytes_copied) + " copied ("@ + decimal(state.percentage) + "%) to "@
        + state.destination
}

/// What the progress row says before the first report: nothing.
pub open spec fn progress_row_text(progress: Option<CopyingStateView>) -> Seq<char> {
    match progress {
        Some(state) => progress_text(state),
        None => Seq::empty(),
    }
}

/// The screen while the copy runs: the header, the progress row, the bottom
/// border.
pub open spec fn copying_text(theme: ThemeView, progress: Option<CopyingStateView>) -> Seq<
    Seq<char>,
> {
    header_text(theme) + seq![
        measured_row(progress_row_text(progress)),
        bottom_border_text(None),
    ]
}

/// What the closing box says: the bytes copied in the end, and that this is
/// all of it.
pub open spec fn completed_text(bytes_copied: nat) -> Seq<char> {
    formatted(bytes_copied) + " copied (100%)"@
}

/// The line that follows the boxes once the copy is over.
pub open spec fn completion_message() -> Seq<char> {
    "Finished copying"@
}

/// The bytes that the closing box reports: those of the last progress
/// report, and 0 when there was none.
pub open spec fn final_bytes(progress: Option<CopyingStateView>) -> nat {
    match progress {
        Some(state) => state.bytes_copied,
        None => 0,
    }
}

/// The screen after the copy: the closing box, the queue box, and the
/// completion message on a line of its own.
pub open spec fn completed_screen_text(
    queue: QueueView,
    theme: ThemeView,
    progress: Option<CopyingStateView>,
) -> Seq<Seq<char>> {
    header_text(theme) + seq![
        measured_row(completed_text(final_bytes(progress))),
        bottom_border_text(None),
    ] + queue_box_text(queue) + seq![completion_message()]
}

/// Drawing a screen: the cursor goes to the top left corner, then each line
/// is printed and followed by a move to the next line.
pub open spec fn screen_ops(lines: Seq<Seq<char>>) -> Seq<DrawOp> {
    seq![DrawOp::MoveTo(0, 0)] + Seq::new(
        2 * lines.len(),
        |step: int|
            if step % 2 == 0 {
                DrawOp::Print(lines[step / 2])
            } else {
                DrawOp::MoveToNextLine(1)
            },
    )
}

/// Drawing the progress row again, in place: the cursor goes to the start of
/// that row, the row is cleared, the new row is printed.
pub open spec fn redraw_ops(state: CopyingStateView) -> Seq<DrawOp> {
    seq![
        DrawOp::MoveTo(0, PROGRESS_ROW),
        DrawOp::ClearLine,
        DrawOp::Print(measured_row(progress_text(state))),
    ]
}

/// The view of a progress report that may be missing.
pub open spec fn progress_view(progress: Option<&CopyingState>) -> Option<CopyingStateView> {
    match progress {
        Some(state) => Some(state@),
        None => None,
    }
}

/// The lines of the header, for a theme.
pub fn render_header(theme: &Theme) -> (lines: Vec<String>)
    ensures
        lines.deep_view() == header_text(theme@),
{
    let title_width: usize = "Deployment Copy".unicode_len();
    let mut lines: Vec<String> = Vec::new();
    lines.push(top_border(None));
    lines.push(content_line_padded(theme.title.as_str(), title_width));
    lines.push(divider());
    lines
}

/// A row for each text of `content`, each padded by what it shows.
pub fn render_lines(content: &Vec<String>) -> (lines: Vec<String>)
    ensures
        lines.deep_view() == content.deep_view().map_values(
            |text: Seq<char>| measured_row(text),
        ),
{
    let ghost goal = content.deep_view().map_values(|text: Seq<char>| measured_row(text));
    let mut lines: Vec<String> = Vec::new();
    let mut index: usize = 0;
    while index < content.len()
        invariant
            index <= content.len(),
            goal == content.deep_view().map_values(|text: Seq<char>| measured_row(text)),
            lines.deep_view() == goal.take(index as int),
        decreases content.len() - index,
    {
        let line = content_line(content[index].as_str());
        lines.push(line);
        assert(goal.take(index + 1) =~= goal.take(index as int).push(goal[index as int]));
        index = index + 1;
    }
    lines
}

/// The texts of the rows of the queue box: for each destination the cell of
/// the source column, with the arrow in the arrow row, and the destination.
pub fn queue_rows(queue: &CopyQueue) -> (rows: Vec<String>)
    ensures
        rows.deep_view() == queue_rows_text(queue@),
{
    let ghost goal = queue_rows_text(queue@);
    let destinations = queue.destinations();
    let source = queue.source();
    let arrow: Option<usize> = arrow_row(destinations.len());
    let mut rows: Vec<String> = Vec::new();
    let mut index: usize = 0;
    while index < destinations.len()
        invariant
            index <= destinations.len(),
            destinations.deep_view() == queue@.destinations,
            source@ == queue@.source,
            goal == queue_rows_text(queue@),
            match arrow {
                Some(r) => arrow_row_of(destinations.len() as nat) == Some(r as nat),
                None => arrow_row_of(destinations.len() as nat) == None::<nat>,
            },
            rows.deep_view() == goal.take(index as int),
        decreases destinations.len() - index,
    {
        let carries_arrow: bool = match arrow {
            Some(r) => r == index,
            None => false,
        };
        let row = queue_row(source.as_str(), destinations[index].as_str(), carries_arrow);
        rows.push(row);
        assert(goal.take(index + 1) =~= goal.take(index as int).push(goal[index as int]));
        index = index + 1;
    }
    rows
}

/// The lines of the queue box.
pub fn render_queue(queue: &CopyQueue) -> (lines: Vec<String>)
    ensures
        lines.deep_view() == queue_box_text(queue@),
{
    let split: usize = column_split(queue.source().as_str());
    let rows = queue_rows(queue);
    let mut body = render_lines(&rows);
    let mut lines: Vec<String> = Vec::new();
    lines.push(top_border(Some((split, SPLIT_ABOVE))));
    lines.append(&mut body);
    lines.push(bottom_border(Some((split, SPLIT_BELOW))));
    lines
}

/// The lines of the screen before the copy.
pub fn render_pre_copy(queue: &CopyQueue, theme: &Theme) -> (lines: Vec<String>)
    ensures
        lines.deep_view() == pre_copy_text(queue@, theme@),
{
    let mut prompt = String::from_str("Press ");
    prompt.append(theme.yes_key.as_str());
    prompt.append(" or ");
    prompt.append(theme.no_key.as_str());
    prompt.append(" on your keyboard");
    let mut lines = render_header(theme);
    lines.push(content_line("Do you want to copy to these directories?"));
    lines.push(content_line(prompt.as_str()));
    lines.push(bottom_border(None));
    let mut queue_box = render_queue(queue);
    lines.append(&mut queue_box);
    lines
}

/// What the progress row says for a report.
pub fn progress_line(state: &CopyingState) -> (text: String)
    ensures
        text@ == progress_text(state@),
{
    let mut text = ByteFormatter::format(state.bytes_copied);
    text.append(" copied (");
    push_decimal(&mut text, state.percentage as u64);
    text.append("%) to ");
    text.append(state.destination.as_str());
    text
}

/// The lines of the screen while the copy runs, for the latest report if
/// there is one.
pub fn render_copying(theme: &Theme, progress: Option<&CopyingState>) -> (lines: Vec<String>)
    ensures
        lines.deep_view() == copying_text(theme@, progress_view(progress)),
{
    let text = match progress {
        Some(state) => progress_line(state),
        None => String::new(),
    };
    let mut lines = render_header(theme);
    lines.push(content_line(text.as_str()));
    lines.push(bottom_border(None));
    lines
}

/// The lines of the screen after the copy, for the last report if there was
/// one.
pub fn render_completed(queue: &CopyQueue, theme: &Theme, progress: Option<&CopyingState>) -> (lines:
    Vec<String>)
    ensures
        lines.deep_view() == completed_screen_text(queue@, theme@, progress_view(progress)),
{
    let bytes_copied: u64 = match progress {
        Some(state) => state.bytes_copied,
        None => 0,
    };
    let mut text = ByteFormatter::format(bytes_copied);
    text.append(" copied (100%)");
    let mut lines = render_header(theme);
    lines.push(content_line(text.as_str()));
    lines.push(bottom_border(None));
    let mut queue_box = render_queue(queue);
    lines.append(&mut queue_box);
    lines.push(String::from_str("Finished copying"));
    lines
}

/// The commands that draw `lines` as a screen.
pub fn draw_screen(lines: Vec<String>) -> (commands: Vec<DrawCommand>)
    ensures
        commands.deep_view() == screen_ops(lines.deep_view()),
{
    let ghost texts = lines.deep_view();
    let ghost goal = screen_ops(texts);
    let mut lines = lines;
    let mut commands: Vec<DrawCommand> = Vec::new();
    commands.push(DrawCommand::MoveTo(0, 0));
    let mut index: usize = 0;
    while index < lines.len()
        invariant
            index <= lines.len(),
            lines.len() == texts.len(),
            goal == screen_ops(texts),
            forall|i: int| index <= i < lines.len() ==> (#[trigger] lines[i])@ == texts[i],
            commands.deep_view() == goal.take(1 + 2 * index),
        decreases lines.len() - index,
    {
        let mut line = String::new();
        lines.set_and_swap(index, &mut line);
        commands.push(DrawCommand::Print(line));
        commands.push(DrawCommand::MoveToNextLine(1));
        assert(goal.take(1 + 2 * (index + 1)) =~= goal.take(1 + 2 * index).push(
            goal[1 + 2 * index],
        ).push(goal[2 + 2 * index]));
        index = index + 1;
    }
    commands
}

/// What the display is showing.
pub enum UIState {
    /// Nothing is copied yet: the queue is shown and the user is asked.
    PreCopy(CopyQueue),
    /// The copy is running: the reports arrive through this channel.
    Copying(Receiver<CopyingState>),
    /// The copy is over: the queue is kept for the closing display.
    Completed(CopyQueue),
}

/// How far along a state is: nothing shown yet is 0, then the three states in
/// the order in which a run passes through them.
pub open spec fn state_rank(state: Option<UIState>) -> nat {
    match state {
        None => 0,
        Some(UIState::PreCopy(_)) => 1,
        Some(UIState::Copying(_)) => 2,
        Some(UIState::Completed(_)) => 3,
    }
}

/// What drawing a state takes: nothing for a display that shows nothing yet,
/// and the screen of the state otherwise.
pub open spec fn render_ops(
    state: Option<UIState>,
    theme: ThemeView,
    progress: Option<CopyingStateView>,
) -> Seq<DrawOp> {
    match state {
        None => Seq::empty(),
        Some(UIState::PreCopy(queue)) => screen_ops(pre_copy_text(queue@, theme)),
        Some(UIState::Copying(_)) => screen_ops(copying_text(theme, progress)),
        Some(UIState::Completed(queue)) => screen_ops(
            completed_screen_text(queue@, theme, progress),
        ),
    }
}

/// The display. It holds one state at a time and only ever moves forward:
/// from nothing to the question, to the running copy, to the end.
pub struct UserInterface {
    state: Option<UIState>,
}

impl Default for UserInterface {
    fn default() -> (ui: UserInterface)
        ensures
            ui.ui_state() is None,
    {
        UserInterface::new()
    }
}

impl UserInterface {
    /// The state the display is in.
    pub closed spec fn ui_state(&self) -> Option<UIState> {
        self.state
    }

    /// The state reached by asking for `wanted` from `self`: `wanted` where
    /// that is a step forward, the state as it is otherwise.
    pub open spec fn moved_to(&self, wanted: UIState) -> Option<UIState> {
        if state_rank(self.ui_state()) < state_rank(Some(wanted)) {
            Some(wanted)
        } else {
            self.ui_state()
        }
    }

    /// A display that shows nothing yet.
    pub fn new() -> (ui: UserInterface)
        ensures
            ui.ui_state() is None,
    {
        UserInterface { state: None }
    }

    /// Shows the question for `queue`, if nothing was shown before.
    pub fn with_pre_copy(self, queue: CopyQueue) -> (ui: UserInterface)
        ensures
            ui.ui_state() == self.moved_to(UIState::PreCopy(queue)),
            state_rank(self.ui_state()) <= state_rank(ui.ui_state()),
    {
        match self.state {
            None => UserInterface { state: Some(UIState::PreCopy(queue)) },
            _ => self,
        }
    }

    /// Shows the running copy that reports through `channel`, unless the
    /// copy is already running or over.
    pub fn with_copying(self, channel: Receiver<CopyingState>) -> (ui: UserInterface)
        ensures
            ui.ui_state() == self.moved_to(UIState::Copying(channel)),
            state_rank(self.ui_state()) <= state_rank(ui.ui_state()),
    {
        match self.state {
            None | Some(UIState::PreCopy(_)) => UserInterface {
                state: Some(UIState::Copying(channel)),
            },
            _ => self,
        }
    }

    /// Shows the end of the copy of `queue`, unless the end is already shown.
    pub fn with_completed(self, queue: CopyQueue) -> (ui: UserInterface)
        ensures
            ui.ui_state() == self.moved_to(UIState::Completed(queue)),
            state_rank(self.ui_state()) <= state_rank(ui.ui_state()),
    {
        match self.state {
            Some(UIState::Completed(_)) => self,
            _ => UserInterface { state: Some(UIState::Completed(queue)) },
        }
    }

    /// The state the display is in.
    pub fn state(&self) -> (state: Option<&UIState>)
        ensures
            match state {
                Some(shown) => self.ui_state() == Some(*shown),
                None => self.ui_state() is None,
            },
    {
        self.state.as_ref()
    }

    /// Draws the state with the pieces of `theme`. `progress` is the latest
    /// report of the copy, if there is one: the running copy shows it, the
    /// end shows its bytes, the question does not look at it.
    pub fn render_with(&self, theme: &Theme, progress: Option<&CopyingState>) -> (commands: Vec<
        DrawCommand,
    >)
        ensures
            commands.deep_view() == render_ops(self.ui_state(), theme@, progress_view(progress)),
    {
        match &self.state {
            None => {
                let commands: Vec<DrawCommand> = Vec::new();
                commands
            },
            Some(UIState::PreCopy(queue)) => draw_screen(render_pre_copy(queue, theme)),
            Some(UIState::Copying(_)) => draw_screen(render_copying(theme, progress)),
            Some(UIState::Completed(queue)) => draw_screen(
                render_completed(queue, theme, progress),
            ),
        }
    }

    /// Draws the state for a terminal: as `render_with` does, with the
    /// pieces styled as the terminal library styles them.
    pub fn render(&self, progress: Option<&CopyingState>) -> (commands: Vec<DrawCommand>)
        ensures
            exists|theme: ThemeView|
                commands.deep_view() == #[trigger] render_ops(
                    self.ui_state(),
                    theme,
                    progress_view(progress),
                ),
    {
        let theme = Theme::terminal();
        let commands = self.render_with(&theme, progress);
        commands
    }

    /// Draws a report of the running copy over the one before it: only the
    /// progress row is drawn again, in place. A display that is not showing
    /// a running copy draws nothing.
    pub fn render_progress(&self, state: &CopyingState) -> (commands: Vec<DrawCommand>)
        ensures
            commands.deep_view() == if self.ui_state() matches Some(UIState::Copying(_)) {
                redraw_ops(state@)
            } else {
                Seq::empty()
            },
    {
        let mut commands: Vec<DrawCommand> = Vec::new();
        match &self.state {
            Some(UIState::Copying(_)) => {
                let text = progress_line(state);
                commands.push(DrawCommand::MoveTo(0, PROGRESS_ROW));
                commands.push(DrawCommand::ClearLine);
                commands.push(DrawCommand::Print(content_line(text.as_str())));
            },
            _ => {},
        }
        commands
    }

    /// The channel of progress reports, while the copy is running.
    pub fn progress_source(&self) -> (source: Option<&Receiver<CopyingState>>)
        ensures
            match source {
                Some(channel) => self.ui_state() == Some(UIState::Copying(*channel)),
                None => !(self.ui_state() matches Some(UIState::Copying(_))),
            },
    {
        match &self.state {
            Some(UIState::Copying(channel)) => Some(channel),
            _ => None,
        }
    }
}

} // verus!
