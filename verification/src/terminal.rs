//! The characters that carry a display command to an ANSI terminal.

use vstd::prelude::*;
use crate::display::{copied, CommandView, DisplayCommand};

verus! {

/// The decimal digit for `d`, which is below ten.
pub open spec fn digit(d: nat) -> char {
    seq!['0', '1', '2', '3', '4', '5', '6', '7', '8', '9'][d as int]
}

/// `n` written in decimal, without leading zeros.
pub open spec fn decimal(n: nat) -> Seq<char>
    decreases n,
{
    if n < 10 {
        seq![digit(n)]
    } else {
        decimal(n / 10).push(digit(n % 10))
    }
}

/// The escape sequence that moves a terminal's cursor to a cell, given by
/// column and row, both counted from one: escape, `[`, the row in decimal,
/// `;`, the column in decimal, `H`.
pub open spec fn goto_sequence(column: u16, row: u16) -> Seq<char> {
    seq!['\u{1b}', '['] + decimal(row as nat) + seq![';'] + decimal(column as nat) + seq!['H']
}

/// The escape sequence that clears the whole display: escape, `[2J`.
pub open spec fn clear_sequence() -> Seq<char> {
    seq!['\u{1b}', '[', '2', 'J']
}

/// Formats `termion::cursor::Goto` for a cell. Believed of it, not proved:
/// that the text is escape, `[`, the row in decimal, `;`, the column in
/// decimal, `H`. Its formatting refuses the position `(0, 0)`; positions
/// count from one, and only such are handed to it.
#[verifier::external_body]
fn goto_text(column: u16, row: u16) -> (text: Vec<char>)
    requires
        column >= 1,
        row >= 1,
    ensures
        text@ == goto_sequence(column, row),
{
    termion::cursor::Goto(column, row).to_string().chars().collect()
}

/// Formats `termion::clear::All`. Believed of it, not proved: that the
/// text is the four characters escape, `[`, `2`, `J`.
#[verifier::external_body]
fn clear_text() -> (text: Vec<char>)
    ensures
        text@ == clear_sequence(),
{
    termion::clear::All.to_string().chars().collect()
}

/// The largest column or row that a terminal can be sent to.
pub const MAX_COORDINATE: u128 = 65535;

/// The characters that carry a command to the terminal. Clearing and
/// moving the cursor are escape sequences, text goes as it is, and a flush
/// carries no characters. A cell whose column or row is zero, or beyond
/// what a terminal can be sent to, has no sequence.
pub open spec fn encoded(command: CommandView) -> Option<Seq<char>> {
    match command {
        CommandView::ClearAll => Some(clear_sequence()),
        CommandView::Goto { column, row } => if 1 <= column <= MAX_COORDINATE && 1 <= row
            <= MAX_COORDINATE {
            Some(goto_sequence(column as u16, row as u16))
        } else {
            None
        },
        CommandView::Write(text) => Some(text),
        CommandView::Flush => Some(Seq::empty()),
    }
}

impl DisplayCommand {
    /// The characters to send to the terminal for this command, or `None`
    /// for a cell that no terminal can be sent to.
    pub fn encode(&self) -> (text: Option<Vec<char>>)
        ensures
            match text {
                Some(chars) => encoded(self@) == Some(chars@),
                None => encoded(self@) is None,
            },
    {
        match self {
            DisplayCommand::ClearAll => Some(clear_text()),
            DisplayCommand::Goto { column, row } => {
                if 1 <= *column && *column <= MAX_COORDINATE && 1 <= *row && *row
                    <= MAX_COORDINATE {
                    Some(goto_text(*column as u16, *row as u16))
                } else {
                    None
                }
            },
            DisplayCommand::Write(chars) => Some(copied(chars)),
            DisplayCommand::Flush => Some(Vec::new()),
        }
    }
}

} // verus!
