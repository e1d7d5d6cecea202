//! Cells and styles: what one character position of the grid holds.

use vstd::prelude::*;

verus! {

/// How a cell is rendered. The colours are identifiers that only the renderer
/// interprets; `style_metadata` is a bitmask that is opaque here.
#[derive(Clone, Copy, PartialEq, Eq, Structural, Debug)]
pub struct DisplayStyle {
    pub background: Option<usize>,
    pub foreground: Option<usize>,
    pub style_metadata: usize,
}

impl DisplayStyle {
    /// The style with nothing set.
    pub open spec fn unset() -> DisplayStyle {
        DisplayStyle { background: None, foreground: None, style_metadata: 0 }
    }

    pub fn none() -> (style: Self)
        ensures
            style == Self::unset(),
    {
        Self { background: None, foreground: None, style_metadata: 0 }
    }
}

/// One character position. A `style` of `None` means default rendering.
#[derive(Clone, Copy, PartialEq, Eq, Structural, Debug)]
pub struct DisplayCell {
    pub character: char,
    pub style: Option<DisplayStyle>,
}

impl DisplayCell {
    /// The cell that pads a row: a space with default rendering.
    pub open spec fn padding() -> DisplayCell {
        DisplayCell { character: ' ', style: None }
    }

    pub fn blank() -> (cell: Self)
        ensures
            cell == Self::padding(),
    {
        Self { character: ' ', style: None }
    }
}

/// A run of cells of one row that share a style, as a renderer may group
/// them. `character_start` and `character_end` are columns of the row.
#[derive(Clone, Debug)]
pub struct DisplayBundle {
    pub characters: Vec<char>,
    pub style: DisplayStyle,
    pub unicode_positions: Vec<usize>,
    pub character_start: usize,
    pub character_end: usize,
}

} // verus!
