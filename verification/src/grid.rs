//! The mathematical model of the screen: rows of cells, a cursor, and the
//! transitions that the terminal's operations compute.

use vstd::prelude::*;
use crate::display::{DisplayCell, DisplayStyle};
use crate::operation::{Operation, groups_of};

verus! {

/// The rows of a grid, topmost first. A row may be shorter than the nominal
/// column count: the missing cells are blank.
pub type Rows = Seq<Seq<DisplayCell>>;

/// The largest column or line the cursor can hold. A cell at index
/// `usize::MAX` could never be stored, so movement saturates one below it.
pub open spec fn max_index() -> int {
    usize::MAX - 1
}

/// The smaller of two numbers.
pub open spec fn at_most(a: int, b: int) -> int {
    if a <= b {
        a
    } else {
        b
    }
}

/// The larger of two numbers.
pub open spec fn at_least(a: int, b: int) -> int {
    if a >= b {
        a
    } else {
        b
    }
}

/// `rows`, with empty rows appended until row `line` exists.
pub open spec fn grown(rows: Rows, line: int) -> Rows {
    if line < rows.len() {
        rows
    } else {
        rows + Seq::new((line + 1 - rows.len()) as nat, |i: int| Seq::<DisplayCell>::empty())
    }
}

/// `row`, with blank cells appended until cell `column` exists.
pub open spec fn padded(row: Seq<DisplayCell>, column: int) -> Seq<DisplayCell> {
    if column < row.len() {
        row
    } else {
        row + Seq::new((column + 1 - row.len()) as nat, |i: int| DisplayCell::padding())
    }
}

/// `rows` after `cell` is installed at (`column`, `line`): the grid grows to
/// hold the line, the row is padded to hold the column, nothing else changes.
pub open spec fn with_cell(rows: Rows, column: int, line: int, cell: DisplayCell) -> Rows {
    let tall = grown(rows, line);
    tall.update(line, padded(tall[line], column).update(column, cell))
}

/// `rows` with row `line` cut at `column`. A line that the grid does not
/// hold has nothing to cut.
pub open spec fn cut_right(rows: Rows, column: int, line: int) -> Rows {
    if 0 <= line < rows.len() {
        rows.update(line, rows[line].take(at_most(column, rows[line].len() as int)))
    } else {
        rows
    }
}

/// `rows` with row `line` losing the cells before `column`.
pub open spec fn cut_left(rows: Rows, column: int, line: int) -> Rows {
    if 0 <= line < rows.len() {
        rows.update(line, rows[line].skip(at_most(column, rows[line].len() as int)))
    } else {
        rows
    }
}

/// `rows` with row `line` emptied.
pub open spec fn emptied(rows: Rows, line: int) -> Rows {
    if 0 <= line < rows.len() {
        rows.update(line, Seq::empty())
    } else {
        rows
    }
}

/// `rows` without the lines below `line`.
pub open spec fn without_below(rows: Rows, line: int) -> Rows {
    rows.take(at_most(line + 1, rows.len() as int))
}

/// `rows` without the lines above `line`.
pub open spec fn without_above(rows: Rows, line: int) -> Rows {
    rows.skip(at_most(line, rows.len() as int))
}

/// The rows that a viewport of `height` lines starting at line `top` shows.
pub open spec fn window(rows: Rows, top: int, height: int) -> Rows {
    rows.subrange(at_most(top, rows.len() as int), at_most(top + height, rows.len() as int))
}

/// The first parameter of a control sequence, or `default` where it is
/// missing or zero. Only the first value of the first parameter counts.
pub open spec fn first_param(params: Seq<Seq<u16>>, default: u16) -> u16 {
    if params.len() > 0 && params[0].len() > 0 && params[0][0] != 0 {
        params[0][0]
    } else {
        default
    }
}

/// The state that the interpreter mutates: the grid, the cursor, the active
/// style and the wrap mode. `columns` is the nominal width and never changes.
pub struct Screen {
    pub rows: Rows,
    pub column: int,
    pub line: int,
    pub style: Option<DisplayStyle>,
    pub wrapping: bool,
    pub columns: int,
}

impl Screen {
    /// A screen that the executable terminal can hold.
    pub open spec fn valid(self) -> bool {
        &&& 0 <= self.column <= max_index()
        &&& 0 <= self.line <= max_index()
        &&& 0 <= self.columns <= max_index()
    }

    pub open spec fn empty(columns: int) -> Screen {
        Screen {
            rows: Seq::empty(),
            column: 0,
            line: 0,
            style: None,
            wrapping: true,
            columns,
        }
    }

    pub open spec fn with_style(self, style: Option<DisplayStyle>) -> Screen {
        Screen { style, ..self }
    }

    pub open spec fn write_cell(self, column: int, line: int, cell: DisplayCell) -> Screen {
        Screen { rows: with_cell(self.rows, column, line, cell), ..self }
    }

    /// With wrap on, a step past the last column goes to the start of the
    /// next line, which the grid grows to hold. Otherwise the column advances.
    pub open spec fn cursor_forward(self, amount: int) -> Screen {
        if self.wrapping && self.column + amount > self.columns {
            let line = at_most(self.line + 1, max_index());
            Screen { rows: grown(self.rows, line), column: 0, line, ..self }
        } else {
            Screen { column: at_most(self.column + amount, max_index()), ..self }
        }
    }

    pub open spec fn print(self, c: char) -> Screen {
        self.write_cell(
            self.column,
            self.line,
            DisplayCell { character: c, style: self.style },
        ).cursor_forward(1)
    }

    /// The cursor goes to the start of the next line, and one empty row
    /// joins the end of the grid, so that a cursor on the last row still
    /// stands on a row.
    pub open spec fn carriage_return(self) -> Screen {
        Screen {
            rows: self.rows.push(Seq::empty()),
            column: 0,
            line: at_most(self.line + 1, max_index()),
            ..self
        }
    }

    /// The cursor steps forward by one; if its line is then below the grid,
    /// one empty row joins the end of the grid.

    pub open spec fn line_feed(self) -> Screen {
        let moved = self.cursor_forward(1);
        if moved.line >= moved.rows.len() {
            Screen { rows: moved.rows.push(Seq::empty()), ..moved }
        } else {
            moved
        }
    }

    pub open spec fn execute(self, byte: u8) -> Screen {
        if byte == 0x0D {
            self.carriage_return()
        } else if byte == 0x0A {
            self.line_feed()
        } else {
            self
        }
    }

    /// The cursor's row cut at the cursor's column.
    pub open spec fn erase_line_right(self) -> Screen {
        Screen { rows: cut_right(self.rows, self.column, self.line), ..self }
    }

    /// The cursor's row without the cells before the cursor's column.
    pub open spec fn erase_line_left(self) -> Screen {
        Screen { rows: cut_left(self.rows, self.column, self.line), ..self }
    }

    pub open spec fn erase_line_all(self) -> Screen {
        Screen { rows: emptied(self.rows, self.line), ..self }
    }

    /// Cuts the cursor's row at the cursor and drops every line below it.
    pub open spec fn erase_below(self) -> Screen {
        Screen {
            rows: without_below(cut_right(self.rows, self.column, self.line), self.line),
            ..self
        }
    }

    /// Drops the start of the cursor's row and every line above it.
    pub open spec fn erase_above(self) -> Screen {
        Screen {
            rows: without_above(cut_left(self.rows, self.column, self.line), self.line),
            ..self
        }
    }

    pub open spec fn erase_all(self) -> Screen {
        Screen { rows: Seq::empty(), ..self }
    }

    pub open spec fn erase_all_and_home(self) -> Screen {
        Screen { rows: Seq::empty(), column: 0, line: 0, ..self }
    }

    pub open spec fn erase_in_display(self, mode: u16) -> Screen {
        if mode == 0 {
            self.erase_below()
        } else if mode == 1 {
            self.erase_above()
        } else if mode == 2 {
            self.erase_all()
        } else if mode == 3 {
            self.erase_all_and_home()
        } else {
            self
        }
    }

    pub open spec fn erase_in_line(self, mode: u16) -> Screen {
        if mode == 0 {
            self.erase_line_right()
        } else if mode == 1 {
            self.erase_line_left()
        } else if mode == 2 {
            self.erase_line_all()
        } else {
            self
        }
    }

    pub open spec fn move_right(self, amount: int) -> Screen {
        Screen { column: at_most(self.column + amount, self.columns), ..self }
    }

    pub open spec fn move_left(self, amount: int) -> Screen {
        Screen { column: at_least(self.column - amount, 0), ..self }
    }

    pub open spec fn move_up(self, amount: int) -> Screen {
        Screen { line: at_least(self.line - amount, 0), ..self }
    }

    pub open spec fn move_down(self, amount: int) -> Screen {
        Screen { line: at_most(self.line + amount, max_index()), ..self }
    }

    pub open spec fn move_to_column(self, column: int) -> Screen {
        Screen { column: at_most(column, self.columns), ..self }
    }

    pub open spec fn to_line_start(self) -> Screen {
        Screen { column: 0, ..self }
    }

    pub open spec fn with_wrapping(self, wrapping: bool) -> Screen {
        Screen { wrapping, ..self }
    }

    /// The decision table of the control sequences, by final letter.
    pub open spec fn csi(self, params: Seq<Seq<u16>>, action: char) -> Screen {
        if action == 'J' {
            self.erase_in_display(first_param(params, 0))
        } else if action == 'K' {
            self.erase_in_line(first_param(params, 0))
        } else if action == 'C' {
            self.move_right(first_param(params, 1) as int)
        } else if action == 'D' {
            self.move_left(first_param(params, 1) as int)
        } else if action == 'A' {
            self.move_up(first_param(params, 1) as int)
        } else if action == 'B' {
            self.move_down(first_param(params, 1) as int)
        } else if action == 'E' {
            self.move_down(first_param(params, 1) as int).to_line_start()
        } else if action == 'F' {
            self.move_up(first_param(params, 1) as int).to_line_start()
        } else if action == 'G' {
            self.move_to_column(first_param(params, 1) as int)
        } else if action == 'h' && first_param(params, 0) == 7 {
            self.with_wrapping(true)
        } else if action == 'l' && first_param(params, 0) == 7 {
            self.with_wrapping(false)
        } else {
            self
        }
    }

    /// What one operation does to the screen. Only printing, the two line
    /// controls and the control sequences change anything.
    pub open spec fn apply(self, op: Operation) -> Screen {
        match op {
            Operation::Print(c) => self.print(c),
            Operation::Execute(byte) => self.execute(byte),
            Operation::Csi { params, action, .. } => self.csi(groups_of(params@), action),
            _ => self,
        }
    }

    /// The screen after the operations of `ops`, first to last.
    pub open spec fn run(self, ops: Seq<Operation>) -> Screen
        decreases ops.len(),
    {
        if ops.len() == 0 {
            self
        } else {
            self.apply(ops[0]).run(ops.drop_first())
        }
    }
}

} // verus!
