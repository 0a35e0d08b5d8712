//! The mathematical model of a buffer of cells: a sequence of rows, top row
//! first, each row a sequence of cells from left to right.
use vstd::prelude::*;
use crate::cell::{Cell, CellType};

verus! {

/// The rows of a buffer, top row first.
pub type Grid = Seq<Seq<Cell>>;

/// `g` has `n` rows of `n` cells each.
pub open spec fn square(g: Grid, n: int) -> bool {
    &&& g.len() == n
    &&& forall|r: int| 0 <= r < n ==> (#[trigger] g[r]).len() == n
}

/// `(r, c)` is a position of an `n` by `n` grid.
pub open spec fn inside(n: int, r: int, c: int) -> bool {
    0 <= r < n && 0 <= c < n
}

/// `(r, c)` lies on the outermost ring of an `n` by `n` grid.
pub open spec fn on_ring(n: int, r: int, c: int) -> bool {
    inside(n, r, c) && (r == 0 || c == 0 || r == n - 1 || c == n - 1)
}

/// `(r, c)` is a position of an `n` by `n` grid that is not on its ring.
pub open spec fn interior(n: int, r: int, c: int) -> bool {
    0 < r < n - 1 && 0 < c < n - 1
}

/// Every cell carries its own column in `x` and its own row in `y`.
pub open spec fn tagged(g: Grid) -> bool {
    forall|r: int, c: int|
        0 <= r < g.len() && 0 <= c < g[r].len() ==> {
            &&& (#[trigger] g[r][c]).x == c
            &&& g[r][c].y == r
        }
}

/// The grid is square and its outermost ring is dirt.
pub open spec fn bordered(g: Grid) -> bool {
    &&& square(g, g.len() as int)
    &&& forall|r: int, c: int|
        on_ring(g.len() as int, r, c) ==> (#[trigger] g[r][c]).cell_type == CellType::Dirt
}

/// What every buffer of a pass keeps: `n` rows of `n` cells, a ring of dirt,
/// and the position tags.
pub open spec fn steady(g: Grid, n: int) -> bool {
    g.len() == n && bordered(g) && tagged(g)
}

/// Every cell on the ring of `a` is the cell that `b` has there.
pub open spec fn same_ring(a: Grid, b: Grid) -> bool {
    forall|r: int, c: int| on_ring(b.len() as int, r, c) ==> (#[trigger] a[r][c]) == b[r][c]
}

/// The ring carries over: where `a` has the ring of `b` and `b` that of `c`,
/// `a` has the ring of `c`.
pub proof fn same_ring_chains(a: Grid, b: Grid, c: Grid)
    requires
        same_ring(a, b),
        same_ring(b, c),
        b.len() == c.len(),
    ensures
        same_ring(a, c),
{
    assert forall|r: int, k: int| on_ring(c.len() as int, r, k) implies (#[trigger] a[r][k])
        == c[r][k] by {
        assert(b[r][k] == c[r][k]);
    }
}

/// Whether the pass has dealt with `(r, c)` when it is about to deal with
/// `(y, x)`: rows from the top, each from the left.
pub open spec fn before(r: int, c: int, y: int, x: int) -> bool {
    r < y || (r == y && c < x)
}

/// `g` with the cell at row `y`, column `x` replaced by `cell`.
pub open spec fn put(g: Grid, y: int, x: int, cell: Cell) -> Grid {
    g.update(y, g[y].update(x, cell))
}

/// `g` with the kind of the cell at row `y`, column `x` replaced.
pub open spec fn with_kind(g: Grid, y: int, x: int, kind: CellType) -> Grid {
    put(g, y, x, Cell { cell_type: kind, ..g[y][x] })
}

/// `g` with the mass of the cell at row `y`, column `x` replaced.
pub open spec fn with_mass(g: Grid, y: int, x: int, mass: u64) -> Grid {
    put(g, y, x, Cell { mass: mass, ..g[y][x] })
}

/// `g` with kind and mass of the cell at row `y`, column `x` replaced.
pub open spec fn with_content(g: Grid, y: int, x: int, kind: CellType, mass: u64) -> Grid {
    put(g, y, x, Cell { cell_type: kind, mass: mass, ..g[y][x] })
}

/// Vacuum or water: what sand, water and floating wood may move into.
pub open spec fn open_kind(kind: CellType) -> bool {
    kind == CellType::Empty || kind == CellType::Water
}

} // verus!
