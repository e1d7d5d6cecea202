//! What holds of the screen's transitions, whatever the screen and the
//! arguments.

use vstd::prelude::*;
use crate::display::DisplayCell;
use crate::grid::{Screen, first_param, max_index, window};
use crate::operation::Operation;

verus! {

/// A viewport that covers the line of a written cell shows that cell, with
/// its character and its style, at the cell's place.
pub proof fn law_written_cell_is_shown(
    screen: Screen,
    column: int,
    line: int,
    cell: DisplayCell,
    top: int,
    height: int,
)
    requires
        0 <= column,
        0 <= top <= line < top + height,
    ensures
        ({
            let shown = window(screen.write_cell(column, line, cell).rows, top, height);
            &&& line - top < shown.len()
            &&& column < shown[line - top].len()
            &&& shown[line - top][column] == cell
        }),
{
}

/// A write changes no cell but the one written: every other cell that the
/// grid held is still there.
pub proof fn law_write_keeps_other_cells(
    screen: Screen,
    column: int,
    line: int,
    cell: DisplayCell,
    other_column: int,
    other_line: int,
)
    requires
        0 <= column,
        0 <= line,
        0 <= other_line < screen.rows.len(),
        0 <= other_column < screen.rows[other_line].len(),
        other_column != column || other_line != line,
    ensures
        ({
            let rows = screen.write_cell(column, line, cell).rows;
            &&& other_line < rows.len()
            &&& other_column < rows[other_line].len()
            &&& rows[other_line][other_column] == screen.rows[other_line][other_column]
        }),
{
}

/// With wrap on, the column after a step forward is never past the nominal
/// width. A step that would pass it goes to column 0 of the next line, and
/// the grid then holds that line.
pub proof fn law_forward_wraps(screen: Screen, amount: int)
    requires
        screen.valid(),
        screen.wrapping,
        0 <= amount,
        screen.line < max_index(),
    ensures
        ({
            let moved = screen.cursor_forward(amount);
            &&& moved.column <= screen.columns
            &&& screen.column + amount > screen.columns ==> {
                &&& moved.column == 0
                &&& moved.line == screen.line + 1
                &&& moved.rows.len() >= moved.line + 1
            }
            &&& screen.column + amount <= screen.columns ==> {
                &&& moved.column == screen.column + amount
                &&& moved.line == screen.line
                &&& moved.rows == screen.rows
            }
        }),
{
}

/// Erase-in-display with mode 2 leaves a grid of zero rows and the cursor
/// where it was; with mode 3 it also sends the cursor to (0, 0).
pub proof fn law_erase_display_clears(screen: Screen, params: Seq<Seq<u16>>)
    ensures
        first_param(params, 0) == 2 ==> {
            let cleared = screen.csi(params, 'J');
            &&& cleared.rows.len() == 0
            &&& cleared.column == screen.column
            &&& cleared.line == screen.line
        },
        first_param(params, 0) == 3 ==> {
            let cleared = screen.csi(params, 'J');
            &&& cleared.rows.len() == 0
            &&& cleared.column == 0
            &&& cleared.line == 0
        },
{
}

/// Erase-in-line with mode 0 cuts the cursor's row at the cursor's column;
/// with mode 2 it empties the row wherever the cursor stands in it. No
/// other row changes and the cursor stays.
pub proof fn law_erase_line_cuts(screen: Screen, params: Seq<Seq<u16>>)
    requires
        0 <= screen.column,
        0 <= screen.line < screen.rows.len(),
    ensures
        first_param(params, 0) == 0 ==> {
            let erased = screen.csi(params, 'K');
            let row = screen.rows[screen.line];
            &&& erased.rows.len() == screen.rows.len()
            &&& erased.rows[screen.line].len() <= screen.column
            &&& erased.rows[screen.line] == row.take(
                if screen.column <= row.len() { screen.column } else { row.len() as int },
            )
        },
        first_param(params, 0) == 2 ==> {
            let erased = screen.csi(params, 'K');
            &&& erased.rows.len() == screen.rows.len()
            &&& erased.rows[screen.line].len() == 0
        },
        first_param(params, 0) == 0 || first_param(params, 0) == 2 ==> {
            let erased = screen.csi(params, 'K');
            &&& erased.column == screen.column
            &&& erased.line == screen.line
            &&& forall|other: int|
                0 <= other < screen.rows.len() && other != screen.line
                    ==> #[trigger] erased.rows[other] == screen.rows[other]
        },
{
}

/// What was written before the grid is cleared does not come back: after a
/// write, a clear and a write at (0, 0), the grid holds the second cell
/// and nothing else.
pub proof fn law_cleared_cells_stay_gone(
    screen: Screen,
    column: int,
    line: int,
    first: DisplayCell,
    second: DisplayCell,
)
    requires
        0 <= column,
        0 <= line,
    ensures
        screen.write_cell(column, line, first).csi(seq![seq![2u16]], 'J').write_cell(
            0,
            0,
            second,
        ).rows == seq![seq![second]],
{
    let cleared = screen.write_cell(column, line, first).csi(seq![seq![2u16]], 'J');
    assert(first_param(seq![seq![2u16]], 0) == 2);
    assert(cleared.rows =~= Seq::empty());
    let rows = cleared.write_cell(0, 0, second).rows;
    assert(rows.len() == 1);
    assert(rows[0] =~= seq![second]);
    assert(rows =~= seq![seq![second]]);
}

/// A cursor that stands on a row of the grid still does after a character
/// is printed or a control code is executed: the grid grows with the cursor.
pub proof fn law_cursor_line_stays_in_grid(screen: Screen, op: Operation)
    requires
        screen.valid(),
        screen.line < screen.rows.len(),
        op is Print || op is Execute,
    ensures
        screen.apply(op).line < screen.apply(op).rows.len(),
{
}

/// Every operation keeps a valid screen valid and leaves its width alone.
pub proof fn law_apply_keeps_valid(screen: Screen, op: Operation)
    requires
        screen.valid(),
    ensures
        screen.apply(op).valid(),
        screen.apply(op).columns == screen.columns,
{
}

/// While wrap stays on, no operation takes the cursor's column past the
/// nominal width.
pub proof fn law_column_stays_in_width(screen: Screen, op: Operation)
    requires
        screen.valid(),
        screen.wrapping,
        screen.column <= screen.columns,
    ensures
        screen.apply(op).wrapping ==> screen.apply(op).column <= screen.columns,
{
}

/// A list of operations keeps a valid screen valid and leaves its width
/// alone.
pub proof fn law_run_keeps_valid(screen: Screen, ops: Seq<Operation>)
    requires
        screen.valid(),
    ensures
        screen.run(ops).valid(),
        screen.run(ops).columns == screen.columns,
    decreases ops.len(),
{
    if ops.len() > 0 {
        law_apply_keeps_valid(screen, ops[0]);
        law_run_keeps_valid(screen.apply(ops[0]), ops.drop_first());
    }
}

/// Running two lists of operations one after the other is running their
/// concatenation: feeding a stream in pieces changes nothing.
pub proof fn law_run_concat(screen: Screen, first: Seq<Operation>, second: Seq<Operation>)
    ensures
        screen.run(first + second) == screen.run(first).run(second),
    decreases first.len(),
{
    if first.len() == 0 {
        assert(first + second =~= second);
    } else {
        assert((first + second).drop_first() =~= first.drop_first() + second);
        law_run_concat(screen.apply(first[0]), first.drop_first(), second);
    }
}

} // verus!
