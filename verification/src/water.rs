//! The water rule: a fluid that keeps its mass while it flows down, sideways
//! and, under pressure, up, and that lets wood float.
//!
//! Every decision is taken on the snapshot of the grid from before the pass;
//! every change is accumulated in the scratch buffer.
use vstd::prelude::*;
use crate::cell::CellType;
use crate::flow::{
    add_mass, down_flow, flow_down, flow_side, flow_up, side_flow, sub_mass, up_flow,
    MAX_COMPRESS, MAX_MASS, MIN_FLOW, MIN_MASS,
};
use crate::grid::{
    inside, interior, open_kind, same_ring, same_ring_chains, steady, with_content, with_kind,
    with_mass, Grid,
};
use crate::plane::Plane;

verus! {

/// The row of the first cell above row `y` in column `x` that is not wood,
/// if that cell is vacuum or water: the slot that a wood column standing on
/// row `y` can float into. `None` where the column is stuck under something
/// else, or reaches the top.
pub open spec fn wood_top(g: Grid, y: int, x: int) -> Option<int>
    decreases y,
{
    if y <= 0 {
        None
    } else if g[y - 1][x].cell_type == CellType::Wood {
        wood_top(g, y - 1, x)
    } else if open_kind(g[y - 1][x].cell_type) {
        Some(y - 1)
    } else {
        None
    }
}

/// `g` after `flow` has left the cell at `(sy, sx)` for the cell at
/// `(dy, dx)`, which turns to water once it holds `least` or more.
pub open spec fn transfer(
    g: Grid,
    sy: int,
    sx: int,
    dy: int,
    dx: int,
    flow: u64,
    least: u64,
) -> Grid {
    let g1 = with_mass(g, sy, sx, sub_mass(g[sy][sx].mass, flow));
    let m = add_mass(g1[dy][dx].mass, flow);
    let g2 = with_mass(g1, dy, dx, m);
    if m >= least {
        with_kind(g2, dy, dx, CellType::Water)
    } else {
        g2
    }
}

/// `g` after the wood at `(y, x)` has left for row `top` of its column: its
/// old place is vacuum, its new place wood without mass.
pub open spec fn lift_wood(g: Grid, y: int, x: int, top: int) -> Grid {
    with_content(with_kind(g, y, x, CellType::Empty), top, x, CellType::Wood, 0)
}

/// A water cell in the middle of its tick: the scratch buffer so far, the
/// mass the cell has not given away yet, and whether its tick has ended.
pub struct Flowing {
    pub grid: Grid,
    pub remaining: u64,
    pub done: bool,
}

/// A cell under water takes more: it is vacuum, or water that is not full.
pub open spec fn receptive(kind: CellType, mass: u64) -> bool {
    kind == CellType::Empty || (kind == CellType::Water && mass < MAX_MASS)
}

/// The downward step of the water cell at `(y, x)`.
pub open spec fn after_down(snap: Grid, g: Grid, y: int, x: int) -> Flowing {
    let mass = snap[y][x].mass;
    let below = snap[y + 1][x];
    if open_kind(below.cell_type) {
        let flow = down_flow(mass as int, below.mass as int) as u64;
        Flowing {
            grid: transfer(g, y, x, y + 1, x, flow, (MIN_MASS + 1) as u64),
            remaining: (mass - flow) as u64,
            done: false,
        }
    } else {
        Flowing { grid: g, remaining: mass, done: false }
    }
}

/// One sideways step of the water cell at `(y, x)`, towards column `nx`.
/// Water flows into vacuum and water. Wood takes none: it floats up one
/// step where its column is free to, and either way the cell's tick ends.
pub open spec fn after_side(snap: Grid, s: Flowing, y: int, x: int, nx: int) -> Flowing {
    let beside = snap[y][nx];
    if open_kind(beside.cell_type) {
        let flow = side_flow(s.remaining as int, beside.mass as int) as u64;
        Flowing {
            grid: transfer(s.grid, y, x, y, nx, flow, (MIN_MASS + 1) as u64),
            remaining: (s.remaining - flow) as u64,
            done: false,
        }
    } else if beside.cell_type == CellType::Wood {
        match wood_top(snap, y, nx) {
            Some(top) => Flowing {
                grid: lift_wood(s.grid, y, nx, top),
                remaining: s.remaining,
                done: true,
            },
            None => Flowing { grid: s.grid, remaining: s.remaining, done: true },
        }
    } else {
        s
    }
}

/// The upward step of the water cell at `(y, x)`: only a cell that still
/// holds more than a compressed full cell pushes up, into vacuum, water, or
/// the place of wood that floats up first. Stuck wood takes nothing.
pub open spec fn after_up(snap: Grid, s: Flowing, y: int, x: int) -> Grid {
    let above = snap[y - 1][x];
    let flow = up_flow(snap[y][x].mass as int, s.remaining as int, above.mass as int) as u64;
    if s.remaining <= MAX_MASS + MAX_COMPRESS {
        s.grid
    } else if open_kind(above.cell_type) {
        transfer(s.grid, y, x, y - 1, x, flow, MIN_MASS)
    } else if above.cell_type == CellType::Wood {
        match wood_top(snap, y - 1, x) {
            Some(top) => transfer(
                lift_wood(s.grid, y - 1, x, top),
                y,
                x,
                y - 1,
                x,
                flow,
                MIN_MASS,
            ),
            None => s.grid,
        }
    } else {
        s.grid
    }
}

/// The sideways steps of the water cell at `(y, x)`, right then left, which
/// it takes only over a cell that is not receptive.
pub open spec fn after_sides(snap: Grid, s: Flowing, y: int, x: int) -> Flowing {
    if receptive(snap[y + 1][x].cell_type, snap[y + 1][x].mass) {
        s
    } else {
        let right = after_side(snap, s, y, x, x + 1);
        if right.done || right.remaining < MIN_FLOW {
            Flowing { grid: right.grid, remaining: right.remaining, done: true }
        } else {
            after_side(snap, right, y, x, x - 1)
        }
    }
}

/// The scratch buffer `g` after the tick of the cell at `(y, x)` of the
/// snapshot `snap`. A cell that is not water changes nothing. Water below
/// `MIN_MASS` evaporates. Other water flows down, then sideways, then up,
/// and stops as soon as it keeps less than `MIN_FLOW`.
pub open spec fn water_cell(snap: Grid, g: Grid, y: int, x: int) -> Grid {
    let me = snap[y][x];
    if me.cell_type != CellType::Water {
        g
    } else if me.mass < MIN_MASS {
        with_content(g, y, x, CellType::Empty, 0)
    } else {
        let down = after_down(snap, g, y, x);
        if down.remaining < MIN_FLOW {
            down.grid
        } else {
            let sides = after_sides(snap, down, y, x);
            if sides.done || sides.remaining < MIN_FLOW {
                sides.grid
            } else {
                after_up(snap, sides, y, x)
            }
        }
    }
}

/// The scratch buffer `g` after the ticks of the cells of row `y` in
/// columns `1` to `upto - 1`, from the left.
pub open spec fn water_row(snap: Grid, g: Grid, y: int, upto: int) -> Grid
    decreases upto,
{
    if upto <= 1 {
        g
    } else {
        water_cell(snap, water_row(snap, g, y, upto - 1), y, upto - 1)
    }
}

/// The scratch buffer `g` after the ticks of the interior cells of rows `1`
/// to `upto - 1`, from the top.
pub open spec fn water_rows(snap: Grid, g: Grid, upto: int) -> Grid
    decreases upto,
{
    if upto <= 1 {
        g
    } else {
        water_row(snap, water_rows(snap, g, upto - 1), upto - 1, snap.len() - 1)
    }
}

/// The grid after the water rule has run over every interior cell of `snap`,
/// row by row from the top and from left to right within a row.
pub open spec fn water_pass(snap: Grid) -> Grid {
    water_rows(snap, snap, snap.len() - 1)
}

/// Every cell of column `x` strictly between rows `lo` and `hi` is wood.
pub open spec fn wood_between(g: Grid, x: int, lo: int, hi: int) -> bool {
    forall|i: int| lo < i < hi ==> (#[trigger] g[i][x]).cell_type == CellType::Wood
}

/// What `wood_top` finds is an opening: a row above `y` that is vacuum or
/// water, with nothing but wood between it and row `y`.
pub proof fn wood_top_is_first_opening(g: Grid, y: int, x: int)
    ensures
        match wood_top(g, y, x) {
            Some(t) => 0 <= t < y && open_kind(g[t][x].cell_type) && wood_between(g, x, t, y),
            None => true,
        },
    decreases y,
{
    if y > 0 && g[y - 1][x].cell_type == CellType::Wood {
        wood_top_is_first_opening(g, y - 1, x);
    }
}

/// `wood_top` finds every opening: a row above `y` that is vacuum or water,
/// with nothing but wood between it and row `y`, is what it gives.
pub proof fn wood_top_finds_the_opening(g: Grid, y: int, x: int, t: int)
    requires
        0 <= t < y,
        open_kind(g[t][x].cell_type),
        wood_between(g, x, t, y),
    ensures
        wood_top(g, y, x) == Some(t),
    decreases y,
{
    if t < y - 1 {
        assert(g[y - 1][x].cell_type == CellType::Wood);
        wood_top_finds_the_opening(g, y - 1, x, t);
    }
}

/// Wood floats one step: where the column over `(y, x)` opens in row `top`
/// and the scratch buffer still shows the column as the snapshot does,
/// lifting the wood at `(y, x)` leaves wood in every row from `top` to
/// `y - 1`, vacuum in row `y`, and every other cell as it was.
pub proof fn floating_wood_rises_one_step(snap: Grid, g: Grid, n: int, y: int, x: int, top: int)
    requires
        steady(snap, n),
        steady(g, n),
        interior(n, y, x),
        snap[y][x].cell_type == CellType::Wood,
        wood_top(snap, y, x) == Some(top),
        forall|i: int| top < i <= y ==> (#[trigger] g[i][x]).cell_type == snap[i][x].cell_type,
    ensures
        0 < top < y,
        open_kind(snap[top][x].cell_type),
        forall|i: int|
            top <= i < y ==> (#[trigger] lift_wood(g, y, x, top)[i][x]).cell_type
                == CellType::Wood,
        lift_wood(g, y, x, top)[y][x].cell_type == CellType::Empty,
        lift_wood(g, y, x, top)[top][x].mass == 0,
        forall|r: int, c: int|
            inside(n, r, c) && !(c == x && (r == y || r == top)) ==> (#[trigger] lift_wood(
                g,
                y,
                x,
                top,
            )[r][c]) == g[r][c],
{
    wood_top_is_first_opening(snap, y, x);
    assert(open_kind(snap[top][x].cell_type));
    assert forall|i: int| top <= i < y implies (#[trigger] lift_wood(g, y, x, top)[i][x]).cell_type
        == CellType::Wood by {
        if i > top {
            assert(snap[i][x].cell_type == CellType::Wood);
            assert(g[i][x].cell_type == snap[i][x].cell_type);
        }
    }
}

/// Water under pressure lets the wood over it float: where the cell above
/// `(y, x)` is wood whose column opens in row `top`, the upward step of a
/// cell that still holds more than a compressed full cell moves that column
/// up by exactly one cell, into `top`, and the water follows into the place
/// the wood left.
pub proof fn pressure_lifts_wood(snap: Grid, s: Flowing, n: int, y: int, x: int, top: int)
    requires
        steady(snap, n),
        steady(s.grid, n),
        interior(n, y, x),
        s.remaining > MAX_MASS + MAX_COMPRESS,
        snap[y - 1][x].cell_type == CellType::Wood,
        wood_top(snap, y - 1, x) == Some(top),
        forall|i: int| top < i < y ==> (#[trigger] s.grid[i][x]).cell_type == snap[i][x].cell_type,
    ensures
        0 < top < y - 1,
        forall|i: int|
            top <= i < y - 1 ==> (#[trigger] after_up(snap, s, y, x)[i][x]).cell_type
                == CellType::Wood,
        after_up(snap, s, y, x)[y - 1][x].cell_type != CellType::Wood,
        forall|r: int, c: int|
            inside(n, r, c) && !(c == x && (r == y || r == y - 1 || r == top)) ==> (
            #[trigger] after_up(snap, s, y, x)[r][c]) == s.grid[r][c],
{
    wood_top_is_first_opening(snap, y - 1, x);
    assert(open_kind(snap[top][x].cell_type));
    floating_wood_rises_one_step(snap, s.grid, n, y - 1, x, top);
    let lifted = lift_wood(s.grid, y - 1, x, top);
    assert forall|i: int| top <= i < y - 1 implies (#[trigger] after_up(
        snap,
        s,
        y,
        x,
    )[i][x]).cell_type == CellType::Wood by {
        assert(lifted[i][x].cell_type == CellType::Wood);
    }
}

/// A transfer between interior cells keeps the shape, the tags and the ring.
pub proof fn transfer_steady(
    g: Grid,
    n: int,
    sy: int,
    sx: int,
    dy: int,
    dx: int,
    flow: u64,
    least: u64,
)
    requires
        steady(g, n),
        interior(n, sy, sx),
        interior(n, dy, dx),
    ensures
        steady(transfer(g, sy, sx, dy, dx, flow, least), n),
        same_ring(transfer(g, sy, sx, dy, dx, flow, least), g),
{
}

/// Lifting wood inside the ring keeps the shape, the tags and the ring.
pub proof fn lift_steady(g: Grid, n: int, y: int, x: int, top: int)
    requires
        steady(g, n),
        interior(n, y, x),
        interior(n, top, x),
    ensures
        steady(lift_wood(g, y, x, top), n),
        same_ring(lift_wood(g, y, x, top), g),
{
}

/// The downward step keeps the shape, the tags and the ring.
pub proof fn after_down_steady(snap: Grid, g: Grid, n: int, y: int, x: int)
    requires
        steady(snap, n),
        steady(g, n),
        interior(n, y, x),
    ensures
        steady(after_down(snap, g, y, x).grid, n),
        same_ring(after_down(snap, g, y, x).grid, g),
{
    if open_kind(snap[y + 1][x].cell_type) {
        let flow = down_flow(snap[y][x].mass as int, snap[y + 1][x].mass as int) as u64;
        transfer_steady(g, n, y, x, y + 1, x, flow, (MIN_MASS + 1) as u64);
    }
}

/// A sideways step keeps the shape, the tags and the ring.
pub proof fn after_side_steady(snap: Grid, s: Flowing, n: int, y: int, x: int, nx: int)
    requires
        steady(snap, n),
        steady(s.grid, n),
        interior(n, y, x),
        nx == x + 1 || nx == x - 1,
    ensures
        steady(after_side(snap, s, y, x, nx).grid, n),
        same_ring(after_side(snap, s, y, x, nx).grid, s.grid),
{
    let beside = snap[y][nx];
    if open_kind(beside.cell_type) {
        let flow = side_flow(s.remaining as int, beside.mass as int) as u64;
        transfer_steady(s.grid, n, y, x, y, nx, flow, (MIN_MASS + 1) as u64);
    } else if beside.cell_type == CellType::Wood {
        wood_top_is_first_opening(snap, y, nx);
        match wood_top(snap, y, nx) {
            Some(top) => {
                lift_steady(s.grid, n, y, nx, top);
            },
            None => {},
        }
    }
}

/// The sideways steps keep the shape, the tags and the ring.
pub proof fn after_sides_steady(snap: Grid, s: Flowing, n: int, y: int, x: int)
    requires
        steady(snap, n),
        steady(s.grid, n),
        interior(n, y, x),
    ensures
        steady(after_sides(snap, s, y, x).grid, n),
        same_ring(after_sides(snap, s, y, x).grid, s.grid),
{
    if !receptive(snap[y + 1][x].cell_type, snap[y + 1][x].mass) {
        let right = after_side(snap, s, y, x, x + 1);
        after_side_steady(snap, s, n, y, x, x + 1);
        if !(right.done || right.remaining < MIN_FLOW) {
            after_side_steady(snap, right, n, y, x, x - 1);
            let left = after_side(snap, right, y, x, x - 1);
            same_ring_chains(left.grid, right.grid, s.grid);
        }
    }
}

/// The upward step keeps the shape, the tags and the ring.
pub proof fn after_up_steady(snap: Grid, s: Flowing, n: int, y: int, x: int)
    requires
        steady(snap, n),
        steady(s.grid, n),
        interior(n, y, x),
    ensures
        steady(after_up(snap, s, y, x), n),
        same_ring(after_up(snap, s, y, x), s.grid),
{
    let above = snap[y - 1][x];
    let flow = up_flow(snap[y][x].mass as int, s.remaining as int, above.mass as int) as u64;
    if s.remaining <= MAX_MASS + MAX_COMPRESS {
    } else if open_kind(above.cell_type) {
        transfer_steady(s.grid, n, y, x, y - 1, x, flow, MIN_MASS);
    } else if above.cell_type == CellType::Wood {
        wood_top_is_first_opening(snap, y - 1, x);
        match wood_top(snap, y - 1, x) {
            Some(top) => {
                let lifted = lift_wood(s.grid, y - 1, x, top);
                lift_steady(s.grid, n, y - 1, x, top);
                transfer_steady(lifted, n, y, x, y - 1, x, flow, MIN_MASS);
                same_ring_chains(after_up(snap, s, y, x), lifted, s.grid);
            },
            None => {},
        }
    }
}

/// The tick of one cell keeps the shape, the tags and the ring.
pub proof fn water_cell_steady(snap: Grid, g: Grid, n: int, y: int, x: int)
    requires
        steady(snap, n),
        steady(g, n),
        interior(n, y, x),
    ensures
        steady(water_cell(snap, g, y, x), n),
        same_ring(water_cell(snap, g, y, x), g),
{
    let me = snap[y][x];
    if me.cell_type == CellType::Water && me.mass >= MIN_MASS {
        let down = after_down(snap, g, y, x);
        after_down_steady(snap, g, n, y, x);
        if down.remaining >= MIN_FLOW {
            let sides = after_sides(snap, down, y, x);
            after_sides_steady(snap, down, n, y, x);
            same_ring_chains(sides.grid, down.grid, g);
            if !(sides.done || sides.remaining < MIN_FLOW) {
                after_up_steady(snap, sides, n, y, x);
                same_ring_chains(after_up(snap, sides, y, x), sides.grid, g);
            }
        }
    }
}

/// The ticks of a row keep the shape, the tags and the ring.
pub proof fn water_row_steady(snap: Grid, g: Grid, n: int, y: int, upto: int)
    requires
        steady(snap, n),
        steady(g, n),
        0 < y < n - 1,
        upto <= n - 1,
    ensures
        steady(water_row(snap, g, y, upto), n),
        same_ring(water_row(snap, g, y, upto), g),
    decreases upto,
{
    if upto > 1 {
        let before = water_row(snap, g, y, upto - 1);
        water_row_steady(snap, g, n, y, upto - 1);
        water_cell_steady(snap, before, n, y, upto - 1);
        same_ring_chains(water_row(snap, g, y, upto), before, g);
    }
}

/// The ticks of all rows keep the shape, the tags and the ring.
pub proof fn water_rows_steady(snap: Grid, g: Grid, n: int, upto: int)
    requires
        steady(snap, n),
        steady(g, n),
        upto <= n - 1,
    ensures
        steady(water_rows(snap, g, upto), n),
        same_ring(water_rows(snap, g, upto), g),
    decreases upto,
{
    if upto > 1 {
        let before = water_rows(snap, g, upto - 1);
        water_rows_steady(snap, g, n, upto - 1);
        water_row_steady(snap, before, n, upto - 1, n - 1);
        same_ring_chains(water_rows(snap, g, upto), before, g);
    }
}

/// The water rule never touches the ring.
pub proof fn water_pass_steady(snap: Grid, n: int)
    requires
        steady(snap, n),
    ensures
        steady(water_pass(snap), n),
        same_ring(water_pass(snap), snap),
{
    water_rows_steady(snap, snap, n, n - 1);
}

/// Scans column `x` upwards from row `y - 1` through wood. Gives
/// `(false, top)` where the first other cell, in row `top`, is vacuum or
/// water, and `(true, 0)` where the wood is stuck.
pub(crate) fn wood_stuck(snap: &Plane, y: usize, x: usize) -> (r: (bool, usize))
    requires
        y <= snap@.len(),
        forall|i: int| 0 <= i < y ==> x < (#[trigger] snap@[i]).len(),
    ensures
        r.0 <==> wood_top(snap@, y as int, x as int) is None,
        !r.0 ==> {
            &&& wood_top(snap@, y as int, x as int) == Some(r.1 as int)
            &&& r.1 < y
            &&& open_kind(snap@[r.1 as int][x as int].cell_type)
        },
        r.0 ==> r.1 == 0,
{
    let mut i: usize = y;
    while i > 0
        invariant
            i <= y <= snap@.len(),
            forall|j: int| 0 <= j < y ==> x < (#[trigger] snap@[j]).len(),
            wood_top(snap@, y as int, x as int) == wood_top(snap@, i as int, x as int),
        decreases i,
    {
        let kind = snap.kind(i - 1, x);
        if kind == CellType::Wood {
            i = i - 1;
        } else if kind == CellType::Empty || kind == CellType::Water {
            return (false, i - 1);
        } else {
            return (true, 0);
        }
    }
    (true, 0)
}

/// Moves `flow` from the cell at `(sy, sx)` to the cell at `(dy, dx)`.
fn move_mass(
    scratch: &mut Plane,
    n: usize,
    sy: usize,
    sx: usize,
    dy: usize,
    dx: usize,
    flow: u64,
    least: u64,
)
    requires
        steady(old(scratch)@, n as int),
        interior(n as int, sy as int, sx as int),
        interior(n as int, dy as int, dx as int),
    ensures
        final(scratch)@ == transfer(
            old(scratch)@,
            sy as int,
            sx as int,
            dy as int,
            dx as int,
            flow,
            least,
        ),
        steady(final(scratch)@, n as int),
{
    let have: u64 = scratch.mass(sy, sx);
    let keep: u64 = if have >= flow {
        have - flow
    } else {
        0
    };
    scratch.set_mass(sy, sx, keep);
    let held: u64 = scratch.mass(dy, dx);
    let got: u64 = if held <= u64::MAX - flow {
        held + flow
    } else {
        u64::MAX
    };
    scratch.set_mass(dy, dx, got);
    if got >= least {
        scratch.set_kind(dy, dx, CellType::Water);
    }
}

/// Lets the wood at `(y, x)` leave for row `top` of its column.
fn raise_wood(scratch: &mut Plane, n: usize, y: usize, x: usize, top: usize)
    requires
        steady(old(scratch)@, n as int),
        interior(n as int, y as int, x as int),
        interior(n as int, top as int, x as int),
    ensures
        final(scratch)@ == lift_wood(old(scratch)@, y as int, x as int, top as int),
        steady(final(scratch)@, n as int),
{
    scratch.set_kind(y, x, CellType::Empty);
    scratch.set_content(top, x, CellType::Wood, 0);
}

/// The downward step of the water cell at `(y, x)`; gives what it keeps.
fn step_down(snap: &Plane, scratch: &mut Plane, n: usize, y: usize, x: usize) -> (remaining: u64)
    requires
        steady(snap@, n as int),
        steady(old(scratch)@, n as int),
        interior(n as int, y as int, x as int),
    ensures
        after_down(snap@, old(scratch)@, y as int, x as int) == (Flowing {
            grid: final(scratch)@,
            remaining: remaining,
            done: false,
        }),
        steady(final(scratch)@, n as int),
{
    let mass: u64 = snap.mass(y, x);
    let below = snap.get(y + 1, x);
    if below.cell_type == CellType::Empty || below.cell_type == CellType::Water {
        let flow: u64 = flow_down(mass, below.mass);
        move_mass(scratch, n, y, x, y + 1, x, flow, MIN_MASS + 1);
        mass - flow
    } else {
        mass
    }
}

/// One sideways step of the water cell at `(y, x)` towards column `nx`;
/// gives what the cell keeps and whether its tick has ended.
fn step_side(
    snap: &Plane,
    scratch: &mut Plane,
    n: usize,
    y: usize,
    x: usize,
    nx: usize,
    remaining: u64,
) -> (r: (u64, bool))
    requires
        steady(snap@, n as int),
        steady(old(scratch)@, n as int),
        interior(n as int, y as int, x as int),
        nx == x + 1 || nx == x - 1,
    ensures
        after_side(
            snap@,
            Flowing { grid: old(scratch)@, remaining: remaining, done: false },
            y as int,
            x as int,
            nx as int,
        ) == (Flowing { grid: final(scratch)@, remaining: r.0, done: r.1 }),
        steady(final(scratch)@, n as int),
{
    let beside = snap.get(y, nx);
    if beside.cell_type == CellType::Empty || beside.cell_type == CellType::Water {
        let flow: u64 = flow_side(remaining, beside.mass);
        move_mass(scratch, n, y, x, y, nx, flow, MIN_MASS + 1);
        (remaining - flow, false)
    } else if beside.cell_type == CellType::Wood {
        let (stuck, top) = wood_stuck(snap, y, nx);
        if !stuck {
            raise_wood(scratch, n, y, nx, top);
        }
        (remaining, true)
    } else {
        (remaining, false)
    }
}

/// The sideways steps of the water cell at `(y, x)`, right then left.
fn step_sides(
    snap: &Plane,
    scratch: &mut Plane,
    n: usize,
    y: usize,
    x: usize,
    remaining: u64,
) -> (r: (u64, bool))
    requires
        steady(snap@, n as int),
        steady(old(scratch)@, n as int),
        interior(n as int, y as int, x as int),
    ensures
        after_sides(
            snap@,
            Flowing { grid: old(scratch)@, remaining: remaining, done: false },
            y as int,
            x as int,
        ) == (Flowing { grid: final(scratch)@, remaining: r.0, done: r.1 }),
        steady(final(scratch)@, n as int),
{
    let below = snap.get(y + 1, x);
    if below.cell_type == CellType::Empty || (below.cell_type == CellType::Water && below.mass
        < MAX_MASS) {
        (remaining, false)
    } else {
        let (kept, done) = step_side(snap, scratch, n, y, x, x + 1, remaining);
        if done || kept < MIN_FLOW {
            (kept, true)
        } else {
            step_side(snap, scratch, n, y, x, x - 1, kept)
        }
    }
}

/// The upward step of the water cell at `(y, x)`.
fn step_up(snap: &Plane, scratch: &mut Plane, n: usize, y: usize, x: usize, remaining: u64)
    requires
        steady(snap@, n as int),
        steady(old(scratch)@, n as int),
        interior(n as int, y as int, x as int),
    ensures
        final(scratch)@ == after_up(
            snap@,
            Flowing { grid: old(scratch)@, remaining: remaining, done: false },
            y as int,
            x as int,
        ),
        steady(final(scratch)@, n as int),
{
    let above = snap.get(y - 1, x);
    if remaining <= MAX_MASS + MAX_COMPRESS {
        return ;
    }
    let flow: u64 = flow_up(snap.mass(y, x), remaining, above.mass);
    if above.cell_type == CellType::Empty || above.cell_type == CellType::Water {
        move_mass(scratch, n, y, x, y - 1, x, flow, MIN_MASS);
    } else if above.cell_type == CellType::Wood {
        let (stuck, top) = wood_stuck(snap, y - 1, x);
        if !stuck {
            raise_wood(scratch, n, y - 1, x, top);
            move_mass(scratch, n, y, x, y - 1, x, flow, MIN_MASS);
        }
    }
}

/// The tick of the cell at `(y, x)` under the water rule.
pub(crate) fn water_step(snap: &Plane, scratch: &mut Plane, n: usize, y: usize, x: usize)
    requires
        steady(snap@, n as int),
        steady(old(scratch)@, n as int),
        interior(n as int, y as int, x as int),
    ensures
        final(scratch)@ == water_cell(snap@, old(scratch)@, y as int, x as int),
        steady(final(scratch)@, n as int),
{
    let me = snap.get(y, x);
    if me.cell_type != CellType::Water {
        return ;
    }
    if me.mass < MIN_MASS {
        scratch.set_content(y, x, CellType::Empty, 0);
        return ;
    }
    let kept: u64 = step_down(snap, scratch, n, y, x);
    if kept < MIN_FLOW {
        return ;
    }
    let (left, done) = step_sides(snap, scratch, n, y, x, kept);
    if done || left < MIN_FLOW {
        return ;
    }
    step_up(snap, scratch, n, y, x, left);
}

/// Runs the water rule over every interior cell of `snap`, which `scratch`
/// starts as a copy of.
pub(crate) fn water_sweep(snap: &Plane, scratch: &mut Plane)
    requires
        steady(snap@, snap@.len() as int),
        old(scratch)@ == snap@,
    ensures
        final(scratch)@ == water_pass(snap@),
        steady(final(scratch)@, snap@.len() as int),
{
    let n: usize = snap.dim().0;
    if n < 3 {
        return ;
    }
    let mut y: usize = 1;
    while y < n - 1
        invariant
            n >= 3,
            1 <= y <= n - 1,
            steady(snap@, n as int),
            steady(scratch@, n as int),
            scratch@ == water_rows(snap@, snap@, y as int),
        decreases n - y,
    {
        let ghost start = scratch@;
        let mut x: usize = 1;
        while x < n - 1
            invariant
                n >= 3,
                1 <= y < n - 1,
                1 <= x <= n - 1,
                steady(snap@, n as int),
                steady(scratch@, n as int),
                scratch@ == water_row(snap@, start, y as int, x as int),
            decreases n - x,
        {
            water_step(snap, scratch, n, y, x);
            x = x + 1;
        }
        y = y + 1;
    }
}

} // verus!
