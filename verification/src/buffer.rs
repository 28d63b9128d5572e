//! The text buffer: the document as an ordered sequence of lines, each a
//! sequence of characters, with a flag that records unflushed changes.

use vstd::prelude::*;

verus! {

/// Whether a character is a control code: U+0000 to U+001F, or U+007F to
/// U+009F. The newline is one of them.
pub open spec fn is_control(c: char) -> bool {
    c < ' ' || ('\u{7f}' <= c && c < '\u{a0}')
}

/// Tests whether a character is a control code.
pub fn is_control_char(c: char) -> (r: bool)
    ensures
        r == is_control(c),
{
    c < ' ' || ('\u{7f}' <= c && c < '\u{a0}')
}

/// The document that a vector of lines holds.
pub open spec fn document(lines: Seq<Vec<char>>) -> Seq<Seq<char>> {
    Seq::new(lines.len(), |i: int| lines[i]@)
}

/// Whether `(row, column)` is a place in `doc` where a character can go:
/// an existing line, and a column up to and including its end.
pub open spec fn in_bounds(doc: Seq<Seq<char>>, row: int, column: int) -> bool {
    0 <= row < doc.len() && 0 <= column <= doc[row].len()
}

/// `doc` with `c` put into line `row` before the character at `column`.
pub open spec fn with_char(doc: Seq<Seq<char>>, row: int, column: int, c: char) -> Seq<Seq<char>> {
    doc.update(row, doc[row].insert(column, c))
}

/// `doc` with line `row` cut at `column`: the part before `column` stays,
/// the rest becomes a new line directly below.
pub open spec fn with_split(doc: Seq<Seq<char>>, row: int, column: int) -> Seq<Seq<char>> {
    doc.update(row, doc[row].take(column)).insert(row + 1, doc[row].skip(column))
}

/// What inserting `c` at `(row, column)` makes of `doc`: a newline splits
/// the line, any other control character changes nothing, and every other
/// character is put into the line.
pub open spec fn with_inserted(doc: Seq<Seq<char>>, row: int, column: int, c: char) -> Seq<Seq<
    char,
>> {
    if c == '\n' {
        with_split(doc, row, column)
    } else if is_control(c) {
        doc
    } else {
        with_char(doc, row, column, c)
    }
}

/// No line of `doc` holds a control character.
pub open spec fn printable(doc: Seq<Seq<char>>) -> bool {
    forall|i: int, j: int|
        0 <= i < doc.len() && 0 <= j < doc[i].len() ==> !is_control(#[trigger] doc[i][j])
}

/// Why a query on the buffer failed.
#[derive(Debug, Clone, Copy, PartialEq, Eq, Structural)]
pub enum BufferError {
    /// The row is not the index of a line.
    OutOfRange,
}

/// The document and its dirty flag.
#[derive(Debug)]
pub struct TextBuffer {
    lines: Vec<Vec<char>>,
    dirty: bool,
}

impl View for TextBuffer {
    type V = Seq<Seq<char>>;

    /// The lines of the document, top to bottom.
    closed spec fn view(&self) -> Seq<Seq<char>> {
        document(self.lines@)
    }
}

impl TextBuffer {
    /// Whether the contents may differ from what was last drawn.
    pub closed spec fn dirty(&self) -> bool {
        self.dirty
    }

    /// Line numbers and columns of a buffer fit in `usize`: it holds no
    /// more lines, and no line more characters, than a vector can.
    pub proof fn lemma_fits(&self)
        ensures
            self@.len() <= usize::MAX,
            forall|i: int| 0 <= i < self@.len() ==> (#[trigger] self@[i]).len() <= usize::MAX,
    {
        assert(self.lines.len() == self@.len());
        assert forall|i: int| 0 <= i < self@.len() implies (#[trigger] self@[i]).len()
            <= usize::MAX by {
            assert(self.lines@[i].len() == self@[i].len());
        }
    }

    /// A buffer that holds the given lines. It starts dirty: nothing of it
    /// has been drawn yet.
    pub fn new(lines: Vec<Vec<char>>) -> (buffer: TextBuffer)
        ensures
            buffer@ == document(lines@),
            buffer.dirty(),
    {
        TextBuffer { lines, dirty: true }
    }

    /// The number of lines.
    pub fn line_count(&self) -> (n: usize)
        ensures
            n == self@.len(),
    {
        self.lines.len()
    }

    /// The number of characters in line `row`, or `OutOfRange` where the
    /// buffer has no such line.
    pub fn line_length(&self, row: usize) -> (r: Result<usize, BufferError>)
        ensures
            row < self@.len() ==> r is Ok && r.unwrap() == self@[row as int].len(),
            row >= self@.len() ==> r == Err::<usize, BufferError>(BufferError::OutOfRange),
    {
        if row < self.lines.len() {
            Ok(self.lines[row].len())
        } else {
            Err(BufferError::OutOfRange)
        }
    }

    /// The lines themselves.
    pub fn lines(&self) -> (lines: &Vec<Vec<char>>)
        ensures
            document(lines@) == self@,
    {
        &self.lines
    }

    /// Whether the contents may differ from what was last drawn.
    pub fn is_dirty(&self) -> (d: bool)
        ensures
            d == self.dirty(),
    {
        self.dirty
    }

    /// Records a change that the display has not been shown.
    pub fn mark_dirty(&mut self)
        ensures
            final(self)@ == old(self)@,
            final(self).dirty(),
    {
        self.dirty = true;
    }

    /// Records that the display shows the current contents.
    pub fn mark_clean(&mut self)
        ensures
            final(self)@ == old(self)@,
            !final(self).dirty(),
    {
        self.dirty = false;
    }

    /// Cuts line `row` at `column`. The characters before `column` stay in
    /// line `row`; the rest becomes a new line directly below it, and every
    /// later line moves down by one. Marks the buffer dirty.
    pub fn split_line(&mut self, row: usize, column: usize)
        requires
            in_bounds(old(self)@, row as int, column as int),
        ensures
            final(self)@ == with_split(old(self)@, row as int, column as int),
            final(self).dirty(),
    {
        assert(row < self.lines.len());
        let rest = self.lines[row].split_off(column);
        self.lines.insert(row + 1, rest);
        self.dirty = true;
    }

    /// Inserts `c` at `(row, column)`. A newline is never stored: it splits
    /// the line at `column`. Any other control character is ignored. Every
    /// other character goes into line `row` before the character at
    /// `column`. In each case the buffer is marked dirty, also where its
    /// contents stay as they were.
    pub fn insert_char(&mut self, row: usize, column: usize, c: char)
        requires
            in_bounds(old(self)@, row as int, column as int),
        ensures
            final(self)@ == with_inserted(old(self)@, row as int, column as int, c),
            final(self).dirty(),
    {
        if c == '\n' {
            self.split_line(row, column);
        } else if !is_control_char(c) {
            self.lines[row].insert(column, c);
        }
        self.dirty = true;
    }
}

} // verus!
