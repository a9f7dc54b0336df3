//! An overlay layer: a grid of cells, each either transparent or showing
//! one tile.

use vstd::prelude::*;

verus! {

/// Width of the screen in pixels.
pub const SCREEN_W: usize = 160;

/// Height of the screen in pixels.
pub const SCREEN_H: usize = 144;

/// Width of a layer in cells.
pub const COLUMNS: usize = 20;

/// Height of a layer in cells.
pub const ROWS: usize = 18;

/// The mathematical content of a layer: `COLUMNS * ROWS` cells, row by
/// row.
pub struct LayerModel {
    pub cells: Seq<Option<u8>>,
}

/// The position of cell (`x`, `y`) in the sequence of cells.
pub open spec fn cell_index(x: int, y: int) -> int {
    y * 20 + x
}

pub open spec fn in_grid(x: int, y: int) -> bool {
    0 <= x < 20 && 0 <= y < 18
}

impl LayerModel {
    pub open spec fn wf(self) -> bool {
        self.cells.len() == 360
    }

    /// A layer with every cell transparent.
    pub open spec fn blank() -> LayerModel {
        LayerModel { cells: Seq::new(360, |i: int| None::<u8>) }
    }

    /// What cell (`x`, `y`) shows.
    pub open spec fn cell(self, x: int, y: int) -> Option<u8> {
        self.cells[cell_index(x, y)]
    }

    /// The layer with cell (`x`, `y`) showing `tile`.
    pub open spec fn with_cell(self, x: int, y: int, tile: Option<u8>) -> LayerModel {
        LayerModel { cells: self.cells.update(cell_index(x, y), tile) }
    }

    /// A cell that was set shows what it was set to, and every other cell
    /// shows what it showed before.
    pub proof fn lemma_with_cell(self, x: int, y: int, tile: Option<u8>, ox: int, oy: int)
        requires
            self.wf(),
            in_grid(x, y),
            in_grid(ox, oy),
        ensures
            self.with_cell(x, y, tile).wf(),
            self.with_cell(x, y, tile).cell(ox, oy) == if ox == x && oy == y {
                tile
            } else {
                self.cell(ox, oy)
            },
    {
    }
}

/// An overlay layer.
pub struct Layer {
    cells: Vec<Option<u8>>,
}

impl View for Layer {
    type V = LayerModel;

    closed spec fn view(&self) -> LayerModel {
        LayerModel { cells: self.cells@ }
    }
}

impl Layer {
    /// A layer with every cell transparent.
    pub fn new() -> (out: Layer)
        ensures
            out@ == LayerModel::blank(),
            out@.wf(),
    {
        let mut cells: Vec<Option<u8>> = Vec::new();
        let mut i: usize = 0;
        while i < 360
            invariant
                i <= 360,
                cells@.len() == i,
                forall|j: int| 0 <= j < i ==> cells@[j] == None::<u8>,
            decreases 360 - i,
        {
            cells.push(None);
            i += 1;
        }
        assert(cells@ =~= LayerModel::blank().cells);
        Layer { cells }
    }

    /// What cell (`x`, `y`) shows.
    pub fn cell(&self, x: usize, y: usize) -> (out: Option<u8>)
        requires
            self@.wf(),
            in_grid(x as int, y as int),
        ensures
            out == self@.cell(x as int, y as int),
    {
        self.cells[y * 20 + x]
    }

    /// Makes cell (`x`, `y`) show `tile`.
    pub fn set_background(&mut self, x: usize, y: usize, tile: u8)
        requires
            old(self)@.wf(),
            in_grid(x as int, y as int),
        ensures
            final(self)@ == old(self)@.with_cell(x as int, y as int, Some(tile)),
            final(self)@.wf(),
    {
        self.cells.set(y * 20 + x, Some(tile));
    }

    /// Makes cell (`x`, `y`) transparent.
    pub fn clear_cell(&mut self, x: usize, y: usize)
        requires
            old(self)@.wf(),
            in_grid(x as int, y as int),
        ensures
            final(self)@ == old(self)@.with_cell(x as int, y as int, None),
            final(self)@.wf(),
    {
        self.cells.set(y * 20 + x, None);
    }
}

} // verus!
