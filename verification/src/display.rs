//! What the editor asks of the display: clear, go to a cell, write text,
//! flush. The editor only says what is to be done, in order.

use vstd::prelude::*;
use crate::buffer::document;

verus! {

/// One request to the display. Coordinates count from one, as terminals do.
#[derive(Debug, PartialEq, Eq)]
pub enum DisplayCommand {
    /// Clear the whole display.
    ClearAll,
    /// Move the display's cursor to a cell; `(1, 1)` is the top left one.
    Goto { column: u128, row: u128 },
    /// Write these characters at the display's cursor.
    Write(Vec<char>),
    /// Send everything written so far.
    Flush,
}

/// A request to the display, as contracts see it.
pub enum CommandView {
    ClearAll,
    Goto { column: nat, row: nat },
    Write(Seq<char>),
    Flush,
}

impl View for DisplayCommand {
    type V = CommandView;

    open spec fn view(&self) -> CommandView {
        match *self {
            DisplayCommand::ClearAll => CommandView::ClearAll,
            DisplayCommand::Goto { column, row } => CommandView::Goto {
                column: column as nat,
                row: row as nat,
            },
            DisplayCommand::Write(text) => CommandView::Write(text@),
            DisplayCommand::Flush => CommandView::Flush,
        }
    }
}

/// The requests that a vector of commands holds, in order.
pub open spec fn requests(commands: Seq<DisplayCommand>) -> Seq<CommandView> {
    Seq::new(commands.len(), |i: int| commands[i]@)
}

/// What ends each line on a display in raw mode: carriage return, then
/// line feed.
pub open spec fn line_terminator() -> Seq<char> {
    seq!['\r', '\n']
}

/// The first `count` lines of `lines`, each written with its terminator.
pub open spec fn written(lines: Seq<Seq<char>>, count: nat) -> Seq<CommandView> {
    Seq::new(count, |i: int| CommandView::Write(lines[i] + line_terminator()))
}

/// A full repaint of `lines`: clear the display, go to its origin, write
/// each line with its terminator, top to bottom, and flush.
pub open spec fn frame(lines: Seq<Seq<char>>) -> Seq<CommandView> {
    seq![CommandView::ClearAll, CommandView::Goto { column: 1, row: 1 }] + written(
        lines,
        lines.len(),
    ) + seq![CommandView::Flush]
}

/// A copy of `text`.
pub(crate) fn copied(text: &Vec<char>) -> (copy: Vec<char>)
    ensures
        copy@ == text@,
{
    let mut copy: Vec<char> = Vec::new();
    let mut i: usize = 0;
    while i < text.len()
        invariant
            i <= text@.len(),
            copy@ == text@.take(i as int),
        decreases text@.len() - i,
    {
        copy.push(text[i]);
        i = i + 1;
    }
    copy
}

/// A copy of `line` with the line terminator behind it.
fn terminated(line: &Vec<char>) -> (text: Vec<char>)
    ensures
        text@ == line@ + line_terminator(),
{
    let mut text = copied(line);
    text.push('\r');
    text.push('\n');
    text
}

/// Builds the commands of a full repaint of `lines`.
pub fn paint(lines: &Vec<Vec<char>>) -> (commands: Vec<DisplayCommand>)
    ensures
        requests(commands@) == frame(document(lines@)),
{
    let mut commands: Vec<DisplayCommand> = Vec::new();
    commands.push(DisplayCommand::ClearAll);
    commands.push(DisplayCommand::Goto { column: 1, row: 1 });
    let ghost head = seq![CommandView::ClearAll, CommandView::Goto { column: 1, row: 1 }];
    let ghost doc = document(lines@);
    let mut i: usize = 0;
    while i < lines.len()
        invariant
            i <= lines@.len(),
            head.len() == 2,
            doc == document(lines@),
            requests(commands@) == head + written(doc, i as nat),
        decreases lines@.len() - i,
    {
        let ghost before = requests(commands@);
        let text = terminated(&lines[i]);
        commands.push(DisplayCommand::Write(text));
        assert(requests(commands@) =~= before.push(CommandView::Write(doc[i as int] + line_terminator())));
        i = i + 1;
    }
    commands.push(DisplayCommand::Flush);
    commands
}

} // verus!
