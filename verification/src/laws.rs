//! What holds of every session, proved over the state that the contracts
//! of the editor speak of.

use vstd::prelude::*;
use crate::buffer::{in_bounds, is_control, printable, with_inserted};
use crate::display::CommandView;
use crate::editor::State;
use crate::key::KeyEvent;
use crate::width::{cells, char_width, lemma_visual_column_after_insert};

verus! {

/// The cursor never leaves the document. After any key, movement or not,
/// its row is the index of a line and its column is at most the length of
/// that line; a move that would leave the document is absorbed. A document
/// without lines has no line for the cursor to be on: there the cursor
/// rests at the origin, and no move takes it away.
pub proof fn lemma_cursor_stays_in_document(s: State, key: KeyEvent)
    requires
        s.wf(),
    ensures
        s.after(key).wf(),
        !s.after(key).is_empty() ==> 0 <= s.after(key).row < s.after(key).lines.len(),
        !s.after(key).is_empty() ==> 0 <= s.after(key).column <= s.after(key).lines[s.after(
            key,
        ).row].len(),
        s.after(key).is_empty() ==> s.after(key).row == 0 && s.after(key).column == 0,
        s.is_empty() && key.is_movement() ==> s.after(key) == s,
{
}

/// Moving the cursor changes neither the document nor its dirty flag.
pub proof fn lemma_movement_keeps_document(s: State, key: KeyEvent)
    requires
        s.wf(),
        key.is_movement(),
    ensures
        s.after(key).lines == s.lines,
        s.after(key).dirty == s.dirty,
{
}

/// Moving the cursor never repaints. From a state whose document has been
/// drawn, any run of movement keys leaves the document as it was and
/// clean, and no turn of the run sends the display more than the caret and
/// a flush.
pub proof fn lemma_movement_never_repaints(s: State, keys: Seq<KeyEvent>)
    requires
        s.wf(),
        !s.dirty,
        forall|i: int| 0 <= i < keys.len() ==> (#[trigger] keys[i]).is_movement(),
    ensures
        s.played(keys).wf(),
        !s.played(keys).dirty,
        s.played(keys).lines == s.lines,
        forall|i: int|
            0 <= i < keys.len() ==> {
                let moved = (#[trigger] s.played(keys.take(i))).after(keys[i]);
                &&& !moved.dirty
                &&& moved.repaint() == Seq::<CommandView>::empty()
                &&& moved.output() == seq![moved.caret(), CommandView::Flush]
            },
    decreases keys.len(),
{
    if keys.len() > 0 {
        let front = keys.drop_last();
        lemma_movement_never_repaints(s, front);
        lemma_movement_keeps_document(s.played(front), keys.last());
        assert forall|i: int| 0 <= i < keys.len() implies {
            let moved = (#[trigger] s.played(keys.take(i))).after(keys[i]);
            &&& !moved.dirty
            &&& moved.repaint() == Seq::<CommandView>::empty()
            &&& moved.output() == seq![moved.caret(), CommandView::Flush]
        } by {
            if i < keys.len() - 1 {
                assert(keys.take(i) =~= front.take(i));
            } else {
                assert(keys.take(i) =~= front);
            }
        }
    }
}

/// Typing a character that is no control character moves the cursor one
/// column right, and the character then stands directly before the cursor.
/// In a document with lines, the line of the cursor gets one character
/// longer: what stood before the cursor is unchanged, what stood behind it
/// has moved one column right, and no other line has changed. A document
/// without lines becomes the one line that holds the character.
pub proof fn lemma_typed_character(s: State, c: char)
    requires
        s.wf(),
        !is_control(c),
    ensures
        s.typed(c).wf(),
        s.typed(c).dirty,
        s.typed(c).row == s.row,
        s.typed(c).column == s.column + 1,
        s.typed(c).lines[s.row][s.typed(c).column - 1] == c,
        !s.is_empty() ==> {
            &&& s.typed(c).lines.len() == s.lines.len()
            &&& s.typed(c).lines[s.row].len() == s.lines[s.row].len() + 1
            &&& s.typed(c).lines[s.row] == s.lines[s.row].insert(s.column, c)
            &&& forall|i: int|
                0 <= i < s.lines.len() && i != s.row ==> s.typed(c).lines[i] == s.lines[i]
        },
        s.is_empty() ==> s.typed(c).lines == seq![seq![c]],
{
    if s.is_empty() {
        assert(s.typed(c).lines =~~= seq![seq![c]]);
    }
}

/// Typing a newline puts the cursor at the start of the line below. In a
/// document with lines it adds exactly one line: the line of the cursor
/// keeps what stood before the cursor, so its length becomes the old
/// column; the rest becomes the line below it; the lines above stay, the
/// lines below move down by one. A document without lines becomes two empty
/// lines, as one empty line would.
pub proof fn lemma_typed_newline(s: State)
    requires
        s.wf(),
    ensures
        s.typed('\n').wf(),
        s.typed('\n').dirty,
        s.typed('\n').row == s.row + 1,
        s.typed('\n').column == 0,
        !s.is_empty() ==> {
            &&& s.typed('\n').lines.len() == s.lines.len() + 1
            &&& s.typed('\n').lines[s.row].len() == s.column
            &&& s.typed('\n').lines[s.row] == s.lines[s.row].take(s.column)
            &&& s.typed('\n').lines[s.row + 1] == s.lines[s.row].skip(s.column)
            &&& forall|i: int| 0 <= i < s.row ==> s.typed('\n').lines[i] == s.lines[i]
            &&& forall|i: int|
                s.row < i < s.lines.len() ==> s.typed('\n').lines[i + 1] == s.lines[i]
        },
        s.is_empty() ==> s.typed('\n').lines == seq![Seq::<char>::empty(), Seq::<char>::empty()],
{
    if s.is_empty() {
        assert(s.typed('\n').lines =~~= seq![Seq::<char>::empty(), Seq::<char>::empty()]);
    }
}

/// A control character other than the newline changes neither document
/// nor cursor, and still marks the document dirty.
pub proof fn lemma_typed_control(s: State, c: char)
    requires
        s.wf(),
        is_control(c),
        c != '\n',
    ensures
        s.typed(c).lines == s.lines,
        s.typed(c).row == s.row,
        s.typed(c).column == s.column,
        s.typed(c).dirty,
{
}

/// Typing a character moves the caret right by the cells of that
/// character: by two for a character of width two, by one for a character
/// of width one.
pub proof fn lemma_typed_character_moves_caret(s: State, c: char)
    requires
        s.wf(),
        !is_control(c),
    ensures
        s.typed(c).visual() == s.visual() + cells(char_width(c)),
        char_width(c) == Some(2usize) ==> s.typed(c).visual() == s.visual() + 2,
        char_width(c) == Some(1usize) ==> s.typed(c).visual() == s.visual() + 1,
{
    lemma_typed_character(s, c);
    lemma_visual_column_after_insert(s.ground()[s.row], s.column, c);
}

/// Typing keeps control characters out of the document: if no line held
/// one before, none holds one after, whichever character was typed.
pub proof fn lemma_typing_keeps_printable(doc: Seq<Seq<char>>, row: int, column: int, c: char)
    requires
        in_bounds(doc, row, column),
        printable(doc),
    ensures
        printable(with_inserted(doc, row, column, c)),
{
}

/// No key brings a control character into the document: if no line held
/// one before a key, none holds one after it.
pub proof fn lemma_keys_keep_printable(s: State, key: KeyEvent)
    requires
        s.wf(),
        printable(s.lines),
    ensures
        printable(s.after(key).lines),
{
    if let KeyEvent::Char(c) = key {
        lemma_typing_keeps_printable(s.ground(), s.row, s.column, c);
    }
}

} // verus!
