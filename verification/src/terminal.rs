//! The executable terminal: a grid of cells and a cursor, changed only by
//! the operations below, each of which computes one transition of
//! [`Screen`].

use vstd::prelude::*;
use crate::display::{DisplayCell, DisplayStyle};
use crate::grid::{
    Rows, Screen, at_most, cut_left, cut_right, emptied, first_param, grown, padded, window, with_cell,
    without_above, without_below,
};
use crate::operation::{Operation, groups_of};

verus! {

/// The rows that a vector of rows holds.
pub open spec fn rows_of(cells: Seq<Vec<DisplayCell>>) -> Rows {
    Seq::new(cells.len(), |i: int| cells[i]@)
}

fn grow_to(cells: &mut Vec<Vec<DisplayCell>>, line: usize)
    requires
        line < usize::MAX,
    ensures
        rows_of(final(cells)@) == grown(rows_of(old(cells)@), line as int),
{
    let ghost before = rows_of(cells@);
    while cells.len() <= line
        invariant
            line < usize::MAX,
            before.len() <= cells.len(),
            cells.len() <= line + 1 || cells.len() == before.len(),
            rows_of(cells@) == before + Seq::new(
                (cells.len() - before.len()) as nat,
                |i: int| Seq::<DisplayCell>::empty(),
            ),
        decreases line + 1 - cells.len(),
    {
        let ghost shorter = rows_of(cells@);
        cells.push(Vec::new());
        assert(rows_of(cells@) =~= shorter.push(Seq::empty()));
        assert(rows_of(cells@) =~= before + Seq::new(
            (cells.len() - before.len()) as nat,
            |i: int| Seq::<DisplayCell>::empty(),
        ));
    }
    assert(rows_of(cells@) =~= grown(before, line as int));
}

fn pad_to(row: &mut Vec<DisplayCell>, column: usize)
    requires
        column < usize::MAX,
    ensures
        final(row)@ == padded(old(row)@, column as int),
{
    let ghost before = row@;
    while row.len() <= column
        invariant
            column < usize::MAX,
            before.len() <= row.len(),
            row.len() <= column + 1 || row.len() == before.len(),
            row@ == before + Seq::new(
                (row.len() - before.len()) as nat,
                |i: int| DisplayCell::padding(),
            ),
        decreases column + 1 - row.len(),
    {
        row.push(DisplayCell::blank());
    }
    assert(row@ =~= padded(before, column as int));
}

fn put_cell(cells: &mut Vec<Vec<DisplayCell>>, column: usize, line: usize, cell: DisplayCell)
    requires
        column < usize::MAX,
        line < usize::MAX,
    ensures
        rows_of(final(cells)@) == with_cell(rows_of(old(cells)@), column as int, line as int, cell),
{
    let ghost before = rows_of(cells@);
    grow_to(cells, line);
    let ghost tall = cells@;
    assert(rows_of(tall).len() == tall.len());
    let row = &mut cells[line];
    pad_to(row, column);
    row[column] = cell;
    assert(rows_of(cells@) =~= with_cell(before, column as int, line as int, cell));
}

fn truncate_row(cells: &mut Vec<Vec<DisplayCell>>, column: usize, line: usize)
    ensures
        rows_of(final(cells)@) == cut_right(rows_of(old(cells)@), column as int, line as int),
{
    let ghost before = rows_of(cells@);
    if line < cells.len() {
        let ghost row = cells@[line as int]@;
        cells[line].truncate(column);
        assert(cells@[line as int]@ =~= row.take(at_most(column as int, row.len() as int)));
    }
    assert(rows_of(cells@) =~= cut_right(before, column as int, line as int));
}

fn behead_row(cells: &mut Vec<Vec<DisplayCell>>, column: usize, line: usize)
    ensures
        rows_of(final(cells)@) == cut_left(rows_of(old(cells)@), column as int, line as int),
{
    let ghost before = rows_of(cells@);
    if line < cells.len() {
        let row = &mut cells[line];
        let at = if column < row.len() {
            column
        } else {
            row.len()
        };
        let rest = row.split_off(at);
        *row = rest;
    }
    assert(rows_of(cells@) =~= cut_left(before, column as int, line as int));
}

fn empty_row(cells: &mut Vec<Vec<DisplayCell>>, line: usize)
    ensures
        rows_of(final(cells)@) == emptied(rows_of(old(cells)@), line as int),
{
    let ghost before = rows_of(cells@);
    if line < cells.len() {
        cells[line].clear();
    }
    assert(rows_of(cells@) =~= emptied(before, line as int));
}

fn drop_below(cells: &mut Vec<Vec<DisplayCell>>, line: usize)
    requires
        line < usize::MAX,
    ensures
        rows_of(final(cells)@) == without_below(rows_of(old(cells)@), line as int),
{
    let ghost before = rows_of(cells@);
    cells.truncate(line + 1);
    assert(rows_of(cells@) =~= without_below(before, line as int));
}

fn drop_above(cells: &mut Vec<Vec<DisplayCell>>, line: usize)
    ensures
        rows_of(final(cells)@) == without_above(rows_of(old(cells)@), line as int),
{
    let ghost before = rows_of(cells@);
    let at = if line < cells.len() {
        line
    } else {
        cells.len()
    };
    let rest = cells.split_off(at);
    *cells = rest;
    assert(rows_of(cells@) =~= without_above(before, line as int));
}

fn copy_row(row: &Vec<DisplayCell>) -> (copy: Vec<DisplayCell>)
    ensures
        copy@ == row@,
{
    let mut copy: Vec<DisplayCell> = Vec::with_capacity(row.len());
    let mut i: usize = 0;
    while i < row.len()
        invariant
            i <= row.len(),
            copy@ =~= row@.take(i as int),
        decreases row.len() - i,
    {
        copy.push(row[i]);
        i += 1;
    }
    assert(copy@ =~= row@);
    copy
}

fn param_or(params: &Vec<Vec<u16>>, default: u16) -> (value: u16)
    ensures
        value == first_param(groups_of(params@), default),
{
    if params.len() > 0 && params[0].len() > 0 && params[0][0] != 0 {
        params[0][0]
    } else {
        default
    }
}

/// A terminal of `NUM_COLUMN` nominal columns that shows `NUM_ROW` lines.
pub struct Terminal<const NUM_ROW: usize, const NUM_COLUMN: usize> {
    cells: Vec<Vec<DisplayCell>>,
    cursor_x: usize,
    cursor_y: usize,
    current_style: Option<DisplayStyle>,
    wrapping: bool,
}

impl<const NUM_ROW: usize, const NUM_COLUMN: usize> Terminal<NUM_ROW, NUM_COLUMN> {
    #[verifier::type_invariant]
    spec fn in_range(self) -> bool {
        &&& self.cursor_x < usize::MAX
        &&& self.cursor_y < usize::MAX
        &&& NUM_COLUMN < usize::MAX
    }

    pub closed spec fn view(&self) -> Screen {
        Screen {
            rows: rows_of(self.cells@),
            column: self.cursor_x as int,
            line: self.cursor_y as int,
            style: self.current_style,
            wrapping: self.wrapping,
            columns: NUM_COLUMN as int,
        }
    }

    /// Takes the rows out, to be changed and put back.
    fn take_cells(&mut self) -> (cells: Vec<Vec<DisplayCell>>)
        ensures
            cells == old(self).cells,
            final(self).cursor_x == old(self).cursor_x,
            final(self).cursor_y == old(self).cursor_y,
            final(self).current_style == old(self).current_style,
            final(self).wrapping == old(self).wrapping,
    {
        proof {
            use_type_invariant(&*self);
        }
        let mut cells: Vec<Vec<DisplayCell>> = Vec::new();
        core::mem::swap(&mut self.cells, &mut cells);
        cells
    }

    /// An empty grid, the cursor at the top left, wrap on, no style. The
    /// width must leave room for one more cell in a row.
    pub fn init() -> (terminal: Self)
        requires
            NUM_COLUMN < usize::MAX,
        ensures
            terminal@ == Screen::empty(NUM_COLUMN as int),
    {
        let terminal = Terminal {
            cells: Vec::with_capacity(NUM_ROW),
            cursor_x: 0,
            cursor_y: 0,
            current_style: None,
            wrapping: true,
        };
        assert(rows_of(terminal.cells@) =~= Seq::empty());
        terminal
    }

    /// The cursor as (column, line). Every terminal holds a valid screen of
    /// its own width.
    pub fn cursor_position(&self) -> (position: (usize, usize))
        ensures
            position.0 == self@.column,
            position.1 == self@.line,
            self@.valid(),
            self@.columns == NUM_COLUMN,
    {
        proof {
            use_type_invariant(self);
        }
        (self.cursor_x, self.cursor_y)
    }

    pub fn line_count(&self) -> (count: usize)
        ensures
            count == self@.rows.len(),
    {
        self.cells.len()
    }

    pub fn is_wrapping(&self) -> (wrapping: bool)
        ensures
            wrapping == self@.wrapping,
    {
        self.wrapping
    }

    pub fn style(&self) -> (style: Option<DisplayStyle>)
        ensures
            style == self@.style,
    {
        self.current_style
    }

    /// Makes `style` the style of the cells printed from now on.
    pub fn set_style(&mut self, style: Option<DisplayStyle>)
        ensures
            final(self)@ == old(self)@.with_style(style),
    {
        proof {
            use_type_invariant(&*self);
        }
        self.current_style = style;
    }

    /// The rows that a viewport of `viewport_height` lines starting at line
    /// `viewport_top` shows. The terminal is not changed.
    pub fn snapshot(&self, viewport_top: usize, viewport_height: usize) -> (rows: Vec<
        Vec<DisplayCell>,
    >)
        ensures
            rows_of(rows@) == window(self@.rows, viewport_top as int, viewport_height as int),
    {
        let len = self.cells.len();
        let start = if viewport_top < len {
            viewport_top
        } else {
            len
        };
        let end = if viewport_height < len - start {
            start + viewport_height
        } else {
            len
        };
        let mut rows: Vec<Vec<DisplayCell>> = Vec::with_capacity(end - start);
        let mut i: usize = start;
        while i < end
            invariant
                start <= i <= end <= self.cells.len(),
                rows_of(rows@) == rows_of(self.cells@).subrange(start as int, i as int),
            decreases end - i,
        {
            let ghost shorter = rows_of(rows@);
            rows.push(copy_row(&self.cells[i]));
            i += 1;
            assert(rows_of(rows@) =~= shorter.push(self.cells@[i - 1]@));
            assert(rows_of(rows@) =~= rows_of(self.cells@).subrange(start as int, i as int));
        }
        rows
    }

    /// Installs a cell, growing the grid and the row as far as needed.
    pub fn write_cell(
        &mut self,
        column: usize,
        line: usize,
        character: char,
        style: Option<DisplayStyle>,
    )
        requires
            column < usize::MAX,
            line < usize::MAX,
        ensures
            final(self)@ == old(self)@.write_cell(
                column as int,
                line as int,
                DisplayCell { character, style },
            ),
    {
        proof {
            use_type_invariant(&*self);
        }
        let mut cells = self.take_cells();
        put_cell(&mut cells, column, line, DisplayCell { character, style });
        self.cells = cells;
    }

    pub fn cursor_forward(&mut self, amount: usize)
        ensures
            final(self)@ == old(self)@.cursor_forward(amount as int),
    {
        proof {
            use_type_invariant(&*self);
        }
        if self.wrapping && (amount > NUM_COLUMN || self.cursor_x > NUM_COLUMN - amount) {
            if self.cursor_y < usize::MAX - 1 {
                self.cursor_y += 1;
            }
            let mut cells = self.take_cells();
            grow_to(&mut cells, self.cursor_y);
            self.cells = cells;
            self.cursor_x = 0;
        } else if amount <= usize::MAX - 1 - self.cursor_x {
            self.cursor_x += amount;
        } else {
            self.cursor_x = usize::MAX - 1;
        }
    }

    /// Places a character at the cursor in the active style, then advances.
    pub fn print(&mut self, c: char)
        ensures
            final(self)@ == old(self)@.print(c),
    {
        proof {
            use_type_invariant(&*self);
        }
        let cell = DisplayCell { character: c, style: self.current_style };
        let mut cells = self.take_cells();
        put_cell(&mut cells, self.cursor_x, self.cursor_y, cell);
        self.cells = cells;
        self.cursor_forward(1);
    }

    /// Carriage return goes to the start of the next line and appends an
    /// empty row; line feed steps forward and appends a row if the cursor is
    /// then below the grid. No other control code has an effect.
    pub fn execute(&mut self, byte: u8)
        ensures
            final(self)@ == old(self)@.execute(byte),
    {
        proof {
            use_type_invariant(&*self);
        }
        if byte == 0x0D {
            self.cursor_x = 0;
            if self.cursor_y < usize::MAX - 1 {
                self.cursor_y += 1;
            }
            let mut cells = self.take_cells();
            let ghost shorter = rows_of(cells@);
            cells.push(Vec::with_capacity(NUM_COLUMN));
            assert(rows_of(cells@) =~= shorter.push(Seq::empty()));
            self.cells = cells;
        } else if byte == 0x0A {
            self.cursor_forward(1);
            if self.cursor_y >= self.cells.len() {
                let mut cells = self.take_cells();
                let ghost shorter = rows_of(cells@);
                cells.push(Vec::with_capacity(NUM_COLUMN));
                assert(rows_of(cells@) =~= shorter.push(Seq::empty()));
                self.cells = cells;
            }
        }
    }

    /// Erases part of the grid: from the cursor on (0), up to the cursor
    /// (1), all of it (2), or all of it with the cursor sent home (3). Any
    /// other mode changes nothing.
    pub fn erase_in_display(&mut self, mode: u16)
        ensures
            final(self)@ == old(self)@.erase_in_display(mode),
    {
        proof {
            use_type_invariant(&*self);
        }
        if mode == 0 {
            let mut cells = self.take_cells();
            truncate_row(&mut cells, self.cursor_x, self.cursor_y);
            drop_below(&mut cells, self.cursor_y);
            self.cells = cells;
        } else if mode == 1 {
            let mut cells = self.take_cells();
            behead_row(&mut cells, self.cursor_x, self.cursor_y);
            drop_above(&mut cells, self.cursor_y);
            self.cells = cells;
        } else if mode == 2 {
            self.cells = Vec::with_capacity(NUM_ROW);
            assert(rows_of(self.cells@) =~= Seq::empty());
        } else if mode == 3 {
            self.cells = Vec::with_capacity(NUM_ROW);
            self.cursor_x = 0;
            self.cursor_y = 0;
            assert(rows_of(self.cells@) =~= Seq::empty());
        }
    }

    /// Erases part of the cursor's row: from the cursor on (0), up to the
    /// cursor (1), or all of it (2). Any other mode changes nothing.
    pub fn erase_in_line(&mut self, mode: u16)
        ensures
            final(self)@ == old(self)@.erase_in_line(mode),
    {
        proof {
            use_type_invariant(&*self);
        }
        if mode == 0 {
            let mut cells = self.take_cells();
            truncate_row(&mut cells, self.cursor_x, self.cursor_y);
            self.cells = cells;
        } else if mode == 1 {
            let mut cells = self.take_cells();
            behead_row(&mut cells, self.cursor_x, self.cursor_y);
            self.cells = cells;
        } else if mode == 2 {
            let mut cells = self.take_cells();
            empty_row(&mut cells, self.cursor_y);
            self.cells = cells;
        }
    }

    /// Moves the cursor right, no further than the nominal width.
    pub fn move_right(&mut self, amount: u16)
        ensures
            final(self)@ == old(self)@.move_right(amount as int),
    {
        proof {
            use_type_invariant(&*self);
        }
        let amount = amount as usize;
        if self.cursor_x < NUM_COLUMN && amount < NUM_COLUMN - self.cursor_x {
            self.cursor_x += amount;
        } else {
            self.cursor_x = NUM_COLUMN;
        }
    }

    /// Moves the cursor left, no further than the first column.
    pub fn move_left(&mut self, amount: u16)
        ensures
            final(self)@ == old(self)@.move_left(amount as int),
    {
        proof {
            use_type_invariant(&*self);
        }
        let amount = amount as usize;
        if amount < self.cursor_x {
            self.cursor_x -= amount;
        } else {
            self.cursor_x = 0;
        }
    }

    /// Moves the cursor up, no further than the top line.
    pub fn move_up(&mut self, amount: u16)
        ensures
            final(self)@ == old(self)@.move_up(amount as int),
    {
        proof {
            use_type_invariant(&*self);
        }
        let amount = amount as usize;
        if amount < self.cursor_y {
            self.cursor_y -= amount;
        } else {
            self.cursor_y = 0;
        }
    }

    /// Moves the cursor down. The grid is not grown until a cell is written.
    pub fn move_down(&mut self, amount: u16)
        ensures
            final(self)@ == old(self)@.move_down(amount as int),
    {
        proof {
            use_type_invariant(&*self);
        }
        let amount = amount as usize;
        if amount <= usize::MAX - 1 - self.cursor_y {
            self.cursor_y += amount;
        } else {
            self.cursor_y = usize::MAX - 1;
        }
    }

    /// Puts the cursor in a column, no further than the nominal width.
    pub fn move_to_column(&mut self, column: u16)
        ensures
            final(self)@ == old(self)@.move_to_column(column as int),
    {
        proof {
            use_type_invariant(&*self);
        }
        let column = column as usize;
        if column < NUM_COLUMN {
            self.cursor_x = column;
        } else {
            self.cursor_x = NUM_COLUMN;
        }
    }

    /// Applies a control sequence. The final letter selects the operation
    /// and the first parameter is its argument; intermediates and the
    /// `ignore` flag do not change what is done.
    pub fn csi_dispatch(
        &mut self,
        params: &Vec<Vec<u16>>,
        intermediates: &Vec<u8>,
        ignore: bool,
        c: char,
    )
        ensures
            final(self)@ == old(self)@.csi(groups_of(params@), c),
    {
        proof {
            use_type_invariant(&*self);
        }
        if c == 'J' {
            self.erase_in_display(param_or(params, 0));
        } else if c == 'K' {
            self.erase_in_line(param_or(params, 0));
        } else if c == 'C' {
            self.move_right(param_or(params, 1));
        } else if c == 'D' {
            self.move_left(param_or(params, 1));
        } else if c == 'A' {
            self.move_up(param_or(params, 1));
        } else if c == 'B' {
            self.move_down(param_or(params, 1));
        } else if c == 'E' {
            self.move_down(param_or(params, 1));
            self.cursor_x = 0;
        } else if c == 'F' {
            self.move_up(param_or(params, 1));
            self.cursor_x = 0;
        } else if c == 'G' {
            self.move_to_column(param_or(params, 1));
        } else if c == 'h' && param_or(params, 0) == 7 {
            self.wrapping = true;
        } else if c == 'l' && param_or(params, 0) == 7 {
            self.wrapping = false;
        }
    }

    /// An escape sequence that is none of the others changes nothing.
    pub fn esc_dispatch(&mut self, intermediates: &Vec<u8>, ignore: bool, byte: u8)
        ensures
            final(self)@ == old(self)@,
    {
    }

    /// An operating system command changes nothing.
    pub fn osc_dispatch(&mut self, params: &Vec<Vec<u8>>, bell_terminated: bool)
        ensures
            final(self)@ == old(self)@,
    {
    }

    /// The start of a device control string changes nothing.
    pub fn hook(
        &mut self,
        params: &Vec<Vec<u16>>,
        intermediates: &Vec<u8>,
        ignore: bool,
        c: char,
    )
        ensures
            final(self)@ == old(self)@,
    {
    }

    /// A byte of a device control string changes nothing.
    pub fn put(&mut self, byte: u8)
        ensures
            final(self)@ == old(self)@,
    {
    }

    /// The end of a device control string changes nothing.
    pub fn unhook(&mut self)
        ensures
            final(self)@ == old(self)@,
    {
    }

    /// Applies one parsed operation.
    pub fn dispatch(&mut self, op: &Operation)
        ensures
            final(self)@ == old(self)@.apply(*op),
    {
        match op {
            Operation::Print(c) => self.print(*c),
            Operation::Execute(byte) => self.execute(*byte),
            Operation::Csi { params, intermediates, ignore, action } => self.csi_dispatch(
                params,
                intermediates,
                *ignore,
                *action,
            ),
            Operation::Osc { fields, bell_terminated } => self.osc_dispatch(
                fields,
                *bell_terminated,
            ),
            Operation::Esc { intermediates, ignore, byte } => self.esc_dispatch(
                intermediates,
                *ignore,
                *byte,
            ),
            Operation::Hook { params, intermediates, ignore, action } => self.hook(
                params,
                intermediates,
                *ignore,
                *action,
            ),
            Operation::Put(byte) => self.put(*byte),
            Operation::Unhook => self.unhook(),
        }
    }

    /// Applies parsed operations in order.
    pub fn apply_all(&mut self, ops: &Vec<Operation>)
        ensures
            final(self)@ == old(self)@.run(ops@),
    {
        let mut i: usize = 0;
        assert(ops@.skip(0) =~= ops@);
        while i < ops.len()
            invariant
                i <= ops.len(),
                self@.run(ops@.skip(i as int)) == old(self)@.run(ops@),
            decreases ops.len() - i,
        {
            assert(ops@.skip(i as int).drop_first() =~= ops@.skip(i + 1));
            self.dispatch(&ops[i]);
            i += 1;
        }
    }
}

} // verus!
