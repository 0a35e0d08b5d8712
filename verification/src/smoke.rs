//! The smoke rule: smoke thins a little every tick, rises through vacuum,
//! and is gone when nothing of it is left.
use vstd::prelude::*;
use crate::cell::{Cell, CellType};
use crate::grid::Grid;
use crate::plane::Plane;
use crate::point::{pointwise, PointRule};

verus! {

/// The mass that smoke loses in one tick.
pub const SMOKE_DECAY: u64 = 10;

/// Smoke of either shade.
pub open spec fn is_smoke(kind: CellType) -> bool {
    kind == CellType::Smoke || kind == CellType::DarkSmoke
}

/// The cell `me` holding what is left of the smoke of `from` after one
/// tick: the same shade with `SMOKE_DECAY` less mass, or vacuum where that
/// leaves nothing.
pub open spec fn thinned(me: Cell, from: Cell) -> Cell {
    if from.mass > SMOKE_DECAY {
        Cell { cell_type: from.cell_type, mass: (from.mass - SMOKE_DECAY) as u64, ..me }
    } else {
        Cell { cell_type: CellType::Empty, mass: 0, ..me }
    }
}

/// The cell at `(r, c)` after the smoke rule has run over `g`.
///
/// Smoke under vacuum leaves its cell empty; other smoke thins in place.
/// Vacuum over smoke takes in what is left of it. Nothing else changes.
pub open spec fn smoke_cell(g: Grid, r: int, c: int) -> Cell {
    let me = g[r][c];
    if is_smoke(me.cell_type) {
        if g[r - 1][c].cell_type == CellType::Empty {
            Cell { cell_type: CellType::Empty, mass: 0, ..me }
        } else {
            thinned(me, me)
        }
    } else if me.cell_type == CellType::Empty && is_smoke(g[r + 1][c].cell_type) {
        thinned(me, g[r + 1][c])
    } else {
        me
    }
}

/// What is left of the smoke of `from`, in the cell `me`.
fn thin(me: Cell, from: Cell) -> (cell: Cell)
    ensures
        cell == thinned(me, from),
{
    if from.mass > SMOKE_DECAY {
        Cell { x: me.x, y: me.y, cell_type: from.cell_type, mass: from.mass - SMOKE_DECAY }
    } else {
        Cell { x: me.x, y: me.y, cell_type: CellType::Empty, mass: 0 }
    }
}

/// The smoke rule.
pub struct Smoke;

impl PointRule for Smoke {
    open spec fn after(snap: Grid, r: int, c: int) -> Cell {
        smoke_cell(snap, r, c)
    }

    proof fn keeps_tags(snap: Grid, r: int, c: int) {
    }

    fn at(snap: &Plane, n: usize, y: usize, x: usize) -> (cell: Cell) {
        let me = snap.get(y, x);
        if me.cell_type == CellType::Smoke || me.cell_type == CellType::DarkSmoke {
            if snap.kind(y - 1, x) == CellType::Empty {
                Cell { x: me.x, y: me.y, cell_type: CellType::Empty, mass: 0 }
            } else {
                thin(me, me)
            }
        } else if me.cell_type == CellType::Empty {
            let below = snap.get(y + 1, x);
            if below.cell_type == CellType::Smoke || below.cell_type == CellType::DarkSmoke {
                thin(me, below)
            } else {
                me
            }
        } else {
            me
        }
    }
}

/// The grid after the smoke rule has run over every interior cell of `g`.
pub open spec fn smoke_pass(g: Grid) -> Grid {
    pointwise::<Smoke>(g)
}

} // verus!
