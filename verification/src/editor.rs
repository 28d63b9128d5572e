//! The editing session: one buffer, one cursor, and the rules by which each
//! key changes them and decides what the display is sent.

use vstd::prelude::*;
use crate::buffer::{document, in_bounds, is_control, is_control_char, with_inserted, TextBuffer};
use crate::cursor::Cursor;
use crate::display::{frame, paint, requests, CommandView, DisplayCommand};
use crate::key::KeyEvent;
use crate::width::{visual_column, visual_column_of};

verus! {

/// The state of a session, as contracts see it.
pub struct State {
    /// The document, top to bottom.
    pub lines: Seq<Seq<char>>,
    /// The line the cursor is on.
    pub row: int,
    /// The characters of that line before the cursor.
    pub column: int,
    /// Whether the document may differ from what was last drawn.
    pub dirty: bool,
}

impl State {
    /// The document has no line at all.
    pub open spec fn is_empty(self) -> bool {
        self.lines.len() == 0
    }

    /// The cursor is on a line of the document, and not beyond its end. In
    /// a document without lines there is no line to be on: there the cursor
    /// rests at the origin.
    pub open spec fn wf(self) -> bool {
        if self.is_empty() {
            self.row == 0 && self.column == 0
        } else {
            in_bounds(self.lines, self.row, self.column)
        }
    }

    /// The state with the cursor at `(row, column)`.
    pub open spec fn at(self, row: int, column: int) -> State {
        State { lines: self.lines, row, column, dirty: self.dirty }
    }

    /// `column`, or the length of line `row` where that is less.
    pub open spec fn clamped(self, row: int, column: int) -> int {
        if column <= self.lines[row].len() {
            column
        } else {
            self.lines[row].len() as int
        }
    }

    /// One line up, the column clamped to the new line; on the first line,
    /// no change.
    pub open spec fn up(self) -> State {
        if self.row > 0 {
            self.at(self.row - 1, self.clamped(self.row - 1, self.column))
        } else {
            self
        }
    }

    /// One line down, the column clamped to the new line; on the last line,
    /// and in a document without lines, no change.
    pub open spec fn down(self) -> State {
        if self.row + 1 < self.lines.len() {
            self.at(self.row + 1, self.clamped(self.row + 1, self.column))
        } else {
            self
        }
    }

    /// One character left; at the start of the line, no change.
    pub open spec fn left(self) -> State {
        if self.column > 0 {
            self.at(self.row, self.column - 1)
        } else {
            self
        }
    }

    /// One character right, but not beyond the end of the line; in a
    /// document without lines, no change.
    pub open spec fn right(self) -> State {
        if self.is_empty() {
            self
        } else {
            self.at(self.row, self.clamped(self.row, self.column + 1))
        }
    }

    /// The document that typing works on: the lines as they are, or one
    /// empty line where there is none yet.
    pub open spec fn ground(self) -> Seq<Seq<char>> {
        if self.is_empty() {
            seq![Seq::<char>::empty()]
        } else {
            self.lines
        }
    }

    /// The state after `c` was typed. A newline splits the line at the
    /// cursor and puts the cursor at the start of the new line. Any other
    /// control character leaves document and cursor alone. Every other
    /// character goes in at the cursor, which moves behind it. A document
    /// without lines takes a newline or a character as one empty line
    /// would. The document counts as changed in each case.
    pub open spec fn typed(self, c: char) -> State {
        if c == '\n' {
            State {
                lines: with_inserted(self.ground(), self.row, self.column, c),
                row: self.row + 1,
                column: 0,
                dirty: true,
            }
        } else if is_control(c) {
            State { lines: self.lines, row: self.row, column: self.column, dirty: true }
        } else {
            State {
                lines: with_inserted(self.ground(), self.row, self.column, c),
                row: self.row,
                column: self.column + 1,
                dirty: true,
            }
        }
    }

    /// The state after a key.
    pub open spec fn after(self, key: KeyEvent) -> State {
        match key {
            KeyEvent::Up => self.up(),
            KeyEvent::Down => self.down(),
            KeyEvent::Left => self.left(),
            KeyEvent::Right => self.right(),
            KeyEvent::Char(c) => self.typed(c),
            KeyEvent::Terminate => self,
            KeyEvent::Other => self,
        }
    }

    /// The state once the display shows the document.
    pub open spec fn shown(self) -> State {
        State { lines: self.lines, row: self.row, column: self.column, dirty: false }
    }

    /// The repaint that this state calls for: a full frame where the
    /// document is dirty, nothing where it is not.
    pub open spec fn repaint(self) -> Seq<CommandView> {
        if self.dirty {
            frame(self.lines)
        } else {
            Seq::empty()
        }
    }

    /// The visual column of the cursor: the display cells that the
    /// characters before it on its line take up; zero in a document
    /// without lines.
    pub open spec fn visual(self) -> nat {
        if self.is_empty() {
            0
        } else {
            visual_column(self.lines[self.row], self.column)
        }
    }

    /// Where the display's cursor belongs: the visual column of the cursor
    /// and its row, both counted from one.
    pub open spec fn caret(self) -> CommandView {
        CommandView::Goto { column: self.visual() + 1, row: (self.row + 1) as nat }
    }

    /// What the display is sent for this state: the repaint it calls for,
    /// then the caret, then a flush.
    pub open spec fn output(self) -> Seq<CommandView> {
        self.repaint().push(self.caret()).push(CommandView::Flush)
    }

    /// What the display is sent when a session opens: it is cleared and
    /// its cursor put at the origin, the document is painted whether dirty
    /// or not, and the cursor goes back to the origin.
    pub open spec fn opening(self) -> Seq<CommandView> {
        seq![CommandView::ClearAll, CommandView::Goto { column: 1, row: 1 }] + frame(self.lines)
            + seq![CommandView::Goto { column: 1, row: 1 }, CommandView::Flush]
    }

    /// The state after one turn: the key applied and the display brought
    /// up to date. The terminate key ends the session instead: nothing is
    /// applied and nothing shown, so the state is as it was.
    pub open spec fn turn(self, key: KeyEvent) -> State {
        if key is Terminate {
            self
        } else {
            self.after(key).shown()
        }
    }

    /// The state after a run of turns, one for each key.
    pub open spec fn played(self, keys: Seq<KeyEvent>) -> State
        decreases keys.len(),
    {
        if keys.len() == 0 {
            self
        } else {
            self.played(keys.drop_last()).turn(keys.last())
        }
    }
}

/// An editing session: the buffer and the cursor in it.
#[derive(Debug)]
pub struct Surara {
    cursor: Cursor,
    text: TextBuffer,
}

impl View for Surara {
    type V = State;

    closed spec fn view(&self) -> State {
        State {
            lines: self.text@,
            row: self.cursor.row as int,
            column: self.cursor.column as int,
            dirty: self.text.dirty(),
        }
    }
}

impl Surara {
    /// A session on the given lines, with the cursor at the origin and the
    /// document dirty. No lines make an empty document.
    pub fn new(lines: Vec<Vec<char>>) -> (session: Surara)
        ensures
            session@.wf(),
            session@.lines == document(lines@),
            session@.row == 0,
            session@.column == 0,
            session@.dirty,
    {
        Surara { cursor: Cursor { row: 0, column: 0 }, text: TextBuffer::new(lines) }
    }

    /// The cursor.
    pub fn cursor(&self) -> (c: Cursor)
        ensures
            c.row == self@.row,
            c.column == self@.column,
    {
        self.cursor
    }

    /// The buffer.
    pub fn text(&self) -> (text: &TextBuffer)
        ensures
            text@ == self@.lines,
            text.dirty() == self@.dirty,
    {
        &self.text
    }

    /// Whether the cursor is on a line of the document and not beyond its
    /// end, or at the origin of a document without lines. Every session
    /// that `new` made and these methods changed is.
    pub fn is_wf(&self) -> (ok: bool)
        ensures
            ok == self@.wf(),
    {
        let lines = self.text.lines();
        if lines.len() == 0 {
            self.cursor.row == 0 && self.cursor.column == 0
        } else {
            self.cursor.row < lines.len() && self.cursor.column <= lines[self.cursor.row].len()
        }
    }

    /// `column`, or the length of line `row` where that is less.
    fn clamp(&self, row: usize, column: usize) -> (c: usize)
        requires
            row < self@.lines.len(),
        ensures
            c == self@.clamped(row as int, column as int),
    {
        let length: usize = self.text.lines()[row].len();
        if column <= length {
            column
        } else {
            length
        }
    }

    /// Moves the cursor one line up and clamps its column to that line. On
    /// the first line nothing changes.
    pub fn move_up(&mut self)
        requires
            old(self)@.wf(),
        ensures
            final(self)@ == old(self)@.up(),
            final(self)@.wf(),
    {
        if self.cursor.row > 0 {
            let row: usize = self.cursor.row - 1;
            let column: usize = self.clamp(row, self.cursor.column);
            self.cursor = Cursor { row, column };
        }
    }

    /// Moves the cursor one line down and clamps its column to that line.
    /// On the last line, and in a document without lines, nothing changes.
    pub fn move_down(&mut self)
        requires
            old(self)@.wf(),
        ensures
            final(self)@ == old(self)@.down(),
            final(self)@.wf(),
    {
        let count: usize = self.text.line_count();
        if count > 0 && self.cursor.row < count - 1 {
            let row: usize = self.cursor.row + 1;
            let column: usize = self.clamp(row, self.cursor.column);
            self.cursor = Cursor { row, column };
        }
    }

    /// Moves the cursor one character left. At the start of the line
    /// nothing changes.
    pub fn move_left(&mut self)
        requires
            old(self)@.wf(),
        ensures
            final(self)@ == old(self)@.left(),
            final(self)@.wf(),
    {
        if self.cursor.column > 0 {
            self.cursor = Cursor { row: self.cursor.row, column: self.cursor.column - 1 };
        }
    }

    /// Moves the cursor one character right, but not beyond the end of the
    /// line. In a document without lines nothing changes.
    pub fn move_right(&mut self)
        requires
            old(self)@.wf(),
        ensures
            final(self)@ == old(self)@.right(),
            final(self)@.wf(),
    {
        let lines = self.text.lines();
        if self.cursor.row < lines.len() && self.cursor.column < lines[self.cursor.row].len() {
            self.cursor = Cursor { row: self.cursor.row, column: self.cursor.column + 1 };
        }
    }

    /// Types `c` at the cursor. A newline splits the line there and puts
    /// the cursor at the start of the new line. Any other control character
    /// is ignored. Every other character goes in at the cursor, which moves
    /// behind it. A document without lines takes a newline or a character
    /// as one empty line would. The document is marked dirty in each case,
    /// also where a control character left it as it was.
    pub fn insert(&mut self, c: char)
        requires
            old(self)@.wf(),
        ensures
            final(self)@ == old(self)@.typed(c),
            final(self)@.wf(),
    {
        if c != '\n' && is_control_char(c) {
            self.text.mark_dirty();
            return;
        }
        if self.text.line_count() == 0 {
            let mut ground: Vec<Vec<char>> = Vec::new();
            ground.push(Vec::new());
            self.text = TextBuffer::new(ground);
            assert(self.text@ =~~= old(self)@.ground());
        }
        self.text.insert_char(self.cursor.row, self.cursor.column, c);
        proof {
            self.text.lemma_fits();
            assert(self.text@[self.cursor.row as int].len() <= usize::MAX);
        }
        if c == '\n' {
            self.cursor = Cursor { row: self.cursor.row + 1, column: 0 };
        } else {
            self.cursor = Cursor { row: self.cursor.row, column: self.cursor.column + 1 };
        }
    }

    /// Applies a key to buffer and cursor, and says whether the session
    /// goes on: `false` for the terminate key alone, which changes nothing.
    /// A movement that would leave the document is absorbed.
    pub fn apply(&mut self, key: KeyEvent) -> (running: bool)
        requires
            old(self)@.wf(),
        ensures
            final(self)@ == old(self)@.after(key),
            final(self)@.wf(),
            running == !(key is Terminate),
    {
        match key {
            KeyEvent::Terminate => {
                return false;
            },
            KeyEvent::Up => self.move_up(),
            KeyEvent::Down => self.move_down(),
            KeyEvent::Left => self.move_left(),
            KeyEvent::Right => self.move_right(),
            KeyEvent::Char(c) => self.insert(c),
            KeyEvent::Other => {},
        }
        true
    }

    /// The visual column of the cursor: the display cells that the
    /// characters before it on its line take up, and zero in a document
    /// without lines. Computed anew on each call, so it cannot drift from
    /// the cursor.
    pub fn visual_column(&self) -> (v: u128)
        requires
            self@.wf(),
        ensures
            v == self@.visual(),
            v < u128::MAX,
    {
        let lines = self.text.lines();
        if lines.len() == 0 {
            0
        } else {
            visual_column_of(&lines[self.cursor.row], self.cursor.column)
        }
    }

    /// Where the display's cursor belongs: the visual column of the cursor
    /// and its row, both counted from one.
    pub fn place_cursor(&self) -> (command: DisplayCommand)
        requires
            self@.wf(),
        ensures
            command@ == self@.caret(),
    {
        let column: u128 = self.visual_column() + 1;
        let row: u128 = self.cursor.row as u128 + 1;
        DisplayCommand::Goto { column, row }
    }

    /// Repaints if the document is dirty: the commands of a full frame, and
    /// the dirty flag cleared. Where the document is clean, no command at
    /// all: moving the cursor never repaints.
    pub fn draw(&mut self) -> (commands: Vec<DisplayCommand>)
        ensures
            requests(commands@) == old(self)@.repaint(),
            final(self)@ == old(self)@.shown(),
    {
        if self.text.is_dirty() {
            let commands = paint(self.text.lines());
            self.text.mark_clean();
            commands
        } else {
            let commands: Vec<DisplayCommand> = Vec::new();
            commands
        }
    }

    /// Brings the display up to date: the repaint that the document calls
    /// for, then the display's cursor put where the cursor is, then a flush.
    pub fn render(&mut self) -> (commands: Vec<DisplayCommand>)
        requires
            old(self)@.wf(),
        ensures
            requests(commands@) == old(self)@.output(),
            final(self)@ == old(self)@.shown(),
            final(self)@.wf(),
    {
        let mut commands = self.draw();
        let caret = self.place_cursor();
        commands.push(caret);
        commands.push(DisplayCommand::Flush);
        commands
    }

    /// Opens the display: clears it, paints the document whether dirty or
    /// not, and puts the display's cursor at the origin, wherever the
    /// cursor of the session is.
    pub fn init(&mut self) -> (commands: Vec<DisplayCommand>)
        ensures
            requests(commands@) == old(self)@.opening(),
            final(self)@ == old(self)@.shown(),
    {
        let mut commands: Vec<DisplayCommand> = Vec::new();
        commands.push(DisplayCommand::ClearAll);
        commands.push(DisplayCommand::Goto { column: 1, row: 1 });
        let mut painted = paint(self.text.lines());
        commands.append(&mut painted);
        self.text.mark_clean();
        commands.push(DisplayCommand::Goto { column: 1, row: 1 });
        commands.push(DisplayCommand::Flush);
        commands
    }

    /// One turn of the session: applies the key, then brings the display up
    /// to date. The terminate key ends the session: nothing changes and
    /// nothing is sent, which `None` says. For every other key the result
    /// holds what the display is to be sent, in order.
    pub fn step(&mut self, key: KeyEvent) -> (commands: Option<Vec<DisplayCommand>>)
        requires
            old(self)@.wf(),
        ensures
            final(self)@ == old(self)@.turn(key),
            final(self)@.wf(),
            key is Terminate ==> commands is None,
            !(key is Terminate) ==> match commands {
                Some(sent) => requests(sent@) == old(self)@.after(key).output(),
                None => false,
            },
    {
        if self.apply(key) {
            Some(self.render())
        } else {
            None
        }
    }
}

} // verus!
