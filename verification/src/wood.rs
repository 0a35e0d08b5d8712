//! The wood rule: wood falls one row through vacuum.
use vstd::prelude::*;
use crate::cell::{Cell, CellType};
use crate::grid::Grid;
use crate::plane::Plane;
use crate::point::{pointwise, PointRule};

verus! {

/// The cell at `(r, c)` after the wood rule has run over `g`.
///
/// Wood over vacuum leaves its cell empty, and vacuum under wood becomes
/// wood; only the material moves. Nothing else changes.
pub open spec fn wood_cell(g: Grid, r: int, c: int) -> Cell {
    let me = g[r][c];
    if me.cell_type == CellType::Wood && g[r + 1][c].cell_type == CellType::Empty {
        Cell { cell_type: CellType::Empty, ..me }
    } else if me.cell_type == CellType::Empty && g[r - 1][c].cell_type == CellType::Wood {
        Cell { cell_type: CellType::Wood, ..me }
    } else {
        me
    }
}

/// The wood rule.
pub struct Wood;

impl PointRule for Wood {
    open spec fn after(snap: Grid, r: int, c: int) -> Cell {
        wood_cell(snap, r, c)
    }

    proof fn keeps_tags(snap: Grid, r: int, c: int) {
    }

    fn at(snap: &Plane, n: usize, y: usize, x: usize) -> (cell: Cell) {
        let me = snap.get(y, x);
        if me.cell_type == CellType::Wood && snap.kind(y + 1, x) == CellType::Empty {
            Cell { x: me.x, y: me.y, cell_type: CellType::Empty, mass: me.mass }
        } else if me.cell_type == CellType::Empty && snap.kind(y - 1, x) == CellType::Wood {
            Cell { x: me.x, y: me.y, cell_type: CellType::Wood, mass: me.mass }
        } else {
            me
        }
    }
}

/// The grid after the wood rule has run over every interior cell of `g`.
pub open spec fn wood_pass(g: Grid) -> Grid {
    pointwise::<Wood>(g)
}

} // verus!
