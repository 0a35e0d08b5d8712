//! The fire rule: a flame drips down through vacuum; a flame that cannot
//! burns out into smoke and sets the wood next to it alight.
use vstd::prelude::*;
use crate::cell::{Cell, CellType};
use crate::grid::{interior, steady, Grid};
use crate::plane::Plane;
use crate::point::{pointwise, PointRule};

verus! {

/// The mass of the smoke that a fresh flame leaves.
pub const SMOKE_MASS: u64 = 1_000;

/// The mass of the dark smoke that burning fuel leaves.
pub const DARK_SMOKE_MASS: u64 = 2_000;

/// A fresh flame or burning fuel.
pub open spec fn is_fire(kind: CellType) -> bool {
    kind == CellType::FireNormal || kind == CellType::FireBurn
}

/// The cell at `(r, c)` is fire that has no vacuum under it to fall into.
pub open spec fn burns_out(g: Grid, r: int, c: int) -> bool {
    is_fire(g[r][c].cell_type) && g[r + 1][c].cell_type != CellType::Empty
}

/// One of the four cells that share a side with `(r, c)` burns out.
pub open spec fn beside_embers(g: Grid, r: int, c: int) -> bool {
    burns_out(g, r - 1, c) || burns_out(g, r + 1, c) || burns_out(g, r, c - 1) || burns_out(
        g,
        r,
        c + 1,
    )
}

/// The cell at `(r, c)` after the fire rule has run over `g`.
///
/// Fire over vacuum leaves its cell; other fire turns to smoke, dark where
/// it was burning fuel. Vacuum under fire catches the flame. Wood beside
/// fire that burns out becomes burning fuel. Nothing else changes.
pub open spec fn fire_cell(g: Grid, r: int, c: int) -> Cell {
    let me = g[r][c];
    if is_fire(me.cell_type) {
        if g[r + 1][c].cell_type == CellType::Empty {
            Cell { cell_type: CellType::Empty, ..me }
        } else if me.cell_type == CellType::FireBurn {
            Cell { cell_type: CellType::DarkSmoke, mass: DARK_SMOKE_MASS, ..me }
        } else {
            Cell { cell_type: CellType::Smoke, mass: SMOKE_MASS, ..me }
        }
    } else if me.cell_type == CellType::Empty && is_fire(g[r - 1][c].cell_type) {
        Cell { cell_type: CellType::FireNormal, ..me }
    } else if me.cell_type == CellType::Wood && beside_embers(g, r, c) {
        Cell { cell_type: CellType::FireBurn, ..me }
    } else {
        me
    }
}

/// The fire rule.
pub struct Fire;

impl PointRule for Fire {
    open spec fn after(snap: Grid, r: int, c: int) -> Cell {
        fire_cell(snap, r, c)
    }

    proof fn keeps_tags(snap: Grid, r: int, c: int) {
    }

    fn at(snap: &Plane, n: usize, y: usize, x: usize) -> (cell: Cell) {
        let me = snap.get(y, x);
        if me.cell_type == CellType::FireNormal || me.cell_type == CellType::FireBurn {
            if snap.kind(y + 1, x) == CellType::Empty {
                Cell { x: me.x, y: me.y, cell_type: CellType::Empty, mass: me.mass }
            } else if me.cell_type == CellType::FireBurn {
                Cell { x: me.x, y: me.y, cell_type: CellType::DarkSmoke, mass: DARK_SMOKE_MASS }
            } else {
                Cell { x: me.x, y: me.y, cell_type: CellType::Smoke, mass: SMOKE_MASS }
            }
        } else if me.cell_type == CellType::Empty && fire_at(snap, n, y - 1, x) {
            Cell { x: me.x, y: me.y, cell_type: CellType::FireNormal, mass: me.mass }
        } else if me.cell_type == CellType::Wood && (embers_at(snap, n, y - 1, x) || embers_at(
            snap,
            n,
            y + 1,
            x,
        ) || embers_at(snap, n, y, x - 1) || embers_at(snap, n, y, x + 1)) {
            Cell { x: me.x, y: me.y, cell_type: CellType::FireBurn, mass: me.mass }
        } else {
            me
        }
    }
}

/// Whether the cell at `(y, x)` is fire.
fn fire_at(snap: &Plane, n: usize, y: usize, x: usize) -> (b: bool)
    requires
        steady(snap@, n as int),
        y < n && x < n,
    ensures
        b == is_fire(snap@[y as int][x as int].cell_type),
{
    let kind = snap.kind(y, x);
    kind == CellType::FireNormal || kind == CellType::FireBurn
}

/// Whether the cell at `(y, x)` is fire that burns out this tick.
fn embers_at(snap: &Plane, n: usize, y: usize, x: usize) -> (b: bool)
    requires
        steady(snap@, n as int),
        y < n && x < n,
    ensures
        b == burns_out(snap@, y as int, x as int),
{
    if fire_at(snap, n, y, x) {
        snap.kind(y + 1, x) != CellType::Empty
    } else {
        false
    }
}

/// The grid after the fire rule has run over every interior cell of `g`.
pub open spec fn fire_pass(g: Grid) -> Grid {
    pointwise::<Fire>(g)
}

/// Fire and fuel are coupled: a fresh flame in the interior that has wood
/// on all four sides turns to smoke of mass `SMOKE_MASS`, and each of the
/// four becomes burning fuel, in one pass.
pub proof fn flame_lights_its_fuel(g: Grid, r: int, c: int)
    requires
        steady(g, g.len() as int),
        interior(g.len() as int, r, c),
        g[r][c].cell_type == CellType::FireNormal,
        g[r - 1][c].cell_type == CellType::Wood,
        g[r + 1][c].cell_type == CellType::Wood,
        g[r][c - 1].cell_type == CellType::Wood,
        g[r][c + 1].cell_type == CellType::Wood,
    ensures
        fire_pass(g)[r][c].cell_type == CellType::Smoke,
        fire_pass(g)[r][c].mass == SMOKE_MASS,
        fire_pass(g)[r - 1][c].cell_type == CellType::FireBurn,
        fire_pass(g)[r + 1][c].cell_type == CellType::FireBurn,
        fire_pass(g)[r][c - 1].cell_type == CellType::FireBurn,
        fire_pass(g)[r][c + 1].cell_type == CellType::FireBurn,
{
    let n = g.len() as int;
    assert(interior(n, r - 1, c));
    assert(interior(n, r + 1, c));
    assert(interior(n, r, c - 1));
    assert(interior(n, r, c + 1));
    assert(burns_out(g, r, c));
}

} // verus!
