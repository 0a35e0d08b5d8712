//! The value stored at one position of the grid.
use vstd::prelude::*;

verus! {

/// The material occupying a cell. `Empty` is vacuum.
#[derive(Clone, Copy, PartialEq, Eq, Structural, Debug)]
pub enum CellType {
    Empty,
    Water,
    Dirt,
    Sand,
    Wood,
    FireNormal,
    FireBurn,
    Smoke,
    DarkSmoke,
}

/// One cell: where it sits, what it is made of and how much of it there is.
///
/// `mass` counts thousandths of a nominal unit of volume and is meaningful for
/// water and the two kinds of smoke only.
#[derive(Clone, Copy, PartialEq, Eq, Structural, Debug)]
pub struct Cell {
    pub x: usize,
    pub y: usize,
    pub cell_type: CellType,
    pub mass: u64,
}

impl Cell {
    /// The vacuum cell tagged with position `(0, 0)`.
    pub open spec fn empty() -> Cell {
        Cell { x: 0, y: 0, cell_type: CellType::Empty, mass: 0 }
    }
}

impl Default for Cell {
    fn default() -> (c: Cell)
        ensures
            c == Cell::empty(),
    {
        Cell { x: 0, y: 0, cell_type: CellType::Empty, mass: 0 }
    }
}

} // verus!
