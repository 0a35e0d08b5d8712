//! Smoothing: one majority-rule relaxation of dirt and vacuum, which turns
//! noise into caves.
use vstd::prelude::*;
use crate::cell::{Cell, CellType};
use crate::grid::{bordered, inside, on_ring, square, tagged, Grid};
use crate::plane::Plane;

verus! {

/// One if the position `(r, c)` is dirt or lies outside the grid, else zero.
pub open spec fn solid(g: Grid, r: int, c: int) -> int {
    if 0 <= r < g.len() && 0 <= c < g[r].len() && g[r][c].cell_type != CellType::Dirt {
        0
    } else {
        1
    }
}

/// How many of the eight positions around `(r, c)` are dirt or lie outside
/// the grid.
pub open spec fn dirt_around(g: Grid, r: int, c: int) -> int {
    solid(g, r - 1, c - 1) + solid(g, r - 1, c) + solid(g, r - 1, c + 1) + solid(g, r, c - 1)
        + solid(g, r, c + 1) + solid(g, r + 1, c - 1) + solid(g, r + 1, c) + solid(
        g,
        r + 1,
        c + 1,
    )
}

/// The cell at `(r, c)` after one smoothing pass over `g`.
///
/// Dirt and vacuum become dirt with more than four solid neighbours and
/// vacuum with fewer than four, and stay as they are with exactly four.
/// Every other material is left alone.
pub open spec fn smooth_cell(g: Grid, r: int, c: int) -> Cell {
    let me = g[r][c];
    if me.cell_type != CellType::Dirt && me.cell_type != CellType::Empty {
        me
    } else if dirt_around(g, r, c) > 4 {
        Cell { cell_type: CellType::Dirt, ..me }
    } else if dirt_around(g, r, c) < 4 {
        Cell { cell_type: CellType::Empty, ..me }
    } else {
        me
    }
}

/// The grid after one smoothing pass over `g`.
pub open spec fn smooth_pass(g: Grid) -> Grid {
    Seq::new(g.len(), |r: int| Seq::new(g[r].len(), |c: int| smooth_cell(g, r, c)))
}

/// The majority rule: where the cell at `(r, c)` is dirt or vacuum, five or
/// more solid neighbours make it dirt, three or fewer make it vacuum, and
/// exactly four leave it as it is; any other cell is left as it is.
pub proof fn majority_rules(g: Grid, r: int, c: int)
    requires
        0 <= r < g.len(),
        0 <= c < g[r].len(),
    ensures
        0 <= dirt_around(g, r, c) <= 8,
        g[r][c].cell_type == CellType::Dirt || g[r][c].cell_type == CellType::Empty ==> {
            &&& dirt_around(g, r, c) >= 5 ==> smooth_pass(g)[r][c].cell_type == CellType::Dirt
            &&& dirt_around(g, r, c) <= 3 ==> smooth_pass(g)[r][c].cell_type == CellType::Empty
            &&& dirt_around(g, r, c) == 4 ==> smooth_pass(g)[r][c] == g[r][c]
        },
        g[r][c].cell_type != CellType::Dirt && g[r][c].cell_type != CellType::Empty
            ==> smooth_pass(g)[r][c] == g[r][c],
        smooth_pass(g)[r][c].mass == g[r][c].mass,
        smooth_pass(g)[r][c].x == g[r][c].x,
        smooth_pass(g)[r][c].y == g[r][c].y,
{
}

/// Smoothing keeps a ring of dirt: every cell of the ring has at least five
/// solid neighbours, counting those outside the grid.
pub proof fn smoothing_keeps_border(g: Grid)
    requires
        bordered(g),
    ensures
        bordered(smooth_pass(g)),
{
    let n = g.len() as int;
    let s = smooth_pass(g);
    assert forall|r: int, c: int| on_ring(n, r, c) implies (#[trigger] s[r][c]).cell_type
        == CellType::Dirt by {
        assert(g[r][c].cell_type == CellType::Dirt);
        if r == 0 {
            assert(c > 0 ==> g[r][c - 1].cell_type == CellType::Dirt);
            assert(c < n - 1 ==> g[r][c + 1].cell_type == CellType::Dirt);
        } else if r == n - 1 {
            assert(c > 0 ==> g[r][c - 1].cell_type == CellType::Dirt);
            assert(c < n - 1 ==> g[r][c + 1].cell_type == CellType::Dirt);
        } else {
            assert(g[r - 1][c].cell_type == CellType::Dirt);
            assert(g[r + 1][c].cell_type == CellType::Dirt);
        }
        assert(dirt_around(g, r, c) >= 5);
    }
}

/// One if the position one row above and one column left of `(r1, c1)` is
/// dirt or lies outside the grid, else zero.
fn solid_at(snap: &Plane, n: usize, r1: usize, c1: usize) -> (s: u8)
    requires
        square(snap@, n as int),
    ensures
        s == solid(snap@, r1 - 1, c1 - 1),
{
    if r1 == 0 || c1 == 0 || r1 > n || c1 > n {
        1
    } else if snap.kind(r1 - 1, c1 - 1) == CellType::Dirt {
        1
    } else {
        0
    }
}

/// The cell at `(y, x)` after one smoothing pass.
fn smooth_at(snap: &Plane, n: usize, y: usize, x: usize) -> (cell: Cell)
    requires
        square(snap@, n as int),
        n < usize::MAX,
        y < n && x < n,
    ensures
        cell == smooth_cell(snap@, y as int, x as int),
{
    let me = snap.get(y, x);
    if me.cell_type != CellType::Dirt && me.cell_type != CellType::Empty {
        return me;
    }
    let sum: u8 = solid_at(snap, n, y, x) + solid_at(snap, n, y, x + 1) + solid_at(
        snap,
        n,
        y,
        x + 2,
    ) + solid_at(snap, n, y + 1, x) + solid_at(snap, n, y + 1, x + 2) + solid_at(
        snap,
        n,
        y + 2,
        x,
    ) + solid_at(snap, n, y + 2, x + 1) + solid_at(snap, n, y + 2, x + 2);
    if sum > 4 {
        Cell { x: me.x, y: me.y, cell_type: CellType::Dirt, mass: me.mass }
    } else if sum < 4 {
        Cell { x: me.x, y: me.y, cell_type: CellType::Empty, mass: me.mass }
    } else {
        me
    }
}

/// Smooths every cell of `snap`, which `scratch` starts as a copy of.
pub(crate) fn smooth_sweep(snap: &Plane, scratch: &mut Plane)
    requires
        square(snap@, snap@.len() as int),
        tagged(snap@),
        snap@.len() < usize::MAX,
        old(scratch)@ == snap@,
    ensures
        final(scratch)@ == smooth_pass(snap@),
        square(final(scratch)@, snap@.len() as int),
        tagged(final(scratch)@),
{
    let n: usize = snap.dim().0;
    let mut y: usize = 0;
    while y < n
        invariant
            y <= n < usize::MAX,
            square(snap@, n as int),
            square(scratch@, n as int),
            forall|r: int, c: int|
                inside(n as int, r, c) ==> (#[trigger] scratch@[r][c]) == if r < y {
                    smooth_cell(snap@, r, c)
                } else {
                    snap@[r][c]
                },
        decreases n - y,
    {
        let mut x: usize = 0;
        while x < n
            invariant
                y < n < usize::MAX,
                x <= n,
                square(snap@, n as int),
                square(scratch@, n as int),
                forall|r: int, c: int|
                    inside(n as int, r, c) ==> (#[trigger] scratch@[r][c]) == if r < y || (r == y
                        && c < x) {
                        smooth_cell(snap@, r, c)
                    } else {
                        snap@[r][c]
                    },
            decreases n - x,
        {
            let cell = smooth_at(snap, n, y, x);
            scratch.set(y, x, cell);
            x = x + 1;
        }
        y = y + 1;
    }
    assert(scratch@ =~~= smooth_pass(snap@));
}

} // verus!
