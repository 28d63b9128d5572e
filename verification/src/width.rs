//! Display width: how many terminal cells the characters before the cursor
//! take up. This is what the visible caret is placed by; the buffer is
//! never indexed with it.

use vstd::prelude::*;

verus! {

/// The width that `unicode_width::UnicodeWidthChar::width` gives a
/// character: the number of cells it is drawn in, or `None`.
pub uninterp spec fn char_width(c: char) -> Option<usize>;

/// Asks `unicode_width::UnicodeWidthChar::width` for the width of `c`.
/// Believed of that function, not proved: that its answer depends on the
/// character alone. Nothing is claimed of which width a character has.
#[verifier::external_body]
fn measure(c: char) -> (width: Option<usize>)
    ensures
        width == char_width(c),
{
    unicode_width::UnicodeWidthChar::width(c)
}

/// The cells that a character of the given measured width takes up. One
/// without a width takes up none.
pub open spec fn cells(width: Option<usize>) -> nat {
    match width {
        Some(n) => n as nat,
        None => 0,
    }
}

/// The visual column of logical column `column` in `line`: the sum of the
/// cells of the characters before it.
pub open spec fn visual_column(line: Seq<char>, column: int) -> nat
    decreases column,
{
    if column <= 0 {
        0
    } else {
        visual_column(line, column - 1) + cells(char_width(line[column - 1]))
    }
}

/// The cells that a character of the given measured width takes up: the
/// width itself, and none where the character has no width.
pub fn cells_of(width: Option<usize>) -> (n: usize)
    ensures
        n == cells(width),
{
    match width {
        Some(n) => n,
        None => 0,
    }
}

/// The cells that `c` takes up on the display.
pub fn cell_width(c: char) -> (n: usize)
    ensures
        n == cells(char_width(c)),
{
    cells_of(measure(c))
}

/// A visual column has room to grow: even if each of `column` characters
/// took up as many cells as `usize` can count, their sum and one more
/// such character would fit in `u128`.
proof fn lemma_visual_column_fits(line: Seq<char>, column: int)
    requires
        0 <= column <= usize::MAX,
    ensures
        visual_column(line, column) <= column * usize::MAX,
        visual_column(line, column) + usize::MAX < u128::MAX,
    decreases column,
{
    if column > 0 {
        lemma_visual_column_fits(line, column - 1);
        assert(column * usize::MAX == (column - 1) * usize::MAX + usize::MAX) by (nonlinear_arith);
    }
    assert(column * usize::MAX + usize::MAX < u128::MAX) by (nonlinear_arith)
        requires
            0 <= column <= usize::MAX,
            usize::MAX <= 0xffff_ffff_ffff_ffff,
    ;
}

/// Computes the visual column of `column` in `line` by adding up the cells
/// of the characters before it. The result is wide enough for every line
/// that a vector can hold.
pub fn visual_column_of(line: &Vec<char>, column: usize) -> (v: u128)
    requires
        column <= line@.len(),
    ensures
        v == visual_column(line@, column as int),
        v < u128::MAX,
{
    let mut v: u128 = 0;
    let mut i: usize = 0;
    while i < column
        invariant
            i <= column <= line@.len(),
            v == visual_column(line@, i as int),
        decreases column - i,
    {
        let w: usize = cell_width(line[i]);
        proof {
            lemma_visual_column_fits(line@, i as int);
        }
        v = v + w as u128;
        i = i + 1;
    }
    proof {
        lemma_visual_column_fits(line@, column as int);
    }
    v
}

/// Columns up to `column` see only the characters before `column`: two
/// lines that agree there have the same visual column.
pub proof fn lemma_visual_column_of_prefix(a: Seq<char>, b: Seq<char>, column: int)
    requires
        0 <= column <= a.len(),
        column <= b.len(),
        a.take(column) == b.take(column),
    ensures
        visual_column(a, column) == visual_column(b, column),
    decreases column,
{
    if column > 0 {
        assert(a.take(column - 1) =~= a.take(column).take(column - 1));
        assert(b.take(column - 1) =~= b.take(column).take(column - 1));
        lemma_visual_column_of_prefix(a, b, column - 1);
        assert(a[column - 1] == a.take(column)[column - 1]);
        assert(b[column - 1] == b.take(column)[column - 1]);
    }
}

/// Typing a character moves the caret right by the cells of that
/// character: the visual column just behind a character put in at `column`
/// is the visual column of `column` before, plus the character's cells.
pub proof fn lemma_visual_column_after_insert(line: Seq<char>, column: int, c: char)
    requires
        0 <= column <= line.len(),
    ensures
        visual_column(line.insert(column, c), column + 1) == visual_column(line, column) + cells(
            char_width(c),
        ),
        char_width(c) == Some(1usize) ==> visual_column(line.insert(column, c), column + 1)
            == visual_column(line, column) + 1,
        char_width(c) == Some(2usize) ==> visual_column(line.insert(column, c), column + 1)
            == visual_column(line, column) + 2,
{
    let after = line.insert(column, c);
    assert(after.take(column) =~= line.take(column));
    lemma_visual_column_of_prefix(after, line, column);
}

} // verus!
