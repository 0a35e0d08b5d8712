//! The accounting of mass: water and sand move mass between cells and never
//! make any, water keeps it exactly where nothing evaporates and no wood
//! floats, and falling wood moves none.
use vstd::prelude::*;
use crate::cell::{Cell, CellType};
use crate::flow::{
    add_mass, down_flow, side_flow, sub_mass, up_flow, MAX_COMPRESS, MAX_MASS, MIN_FLOW, MIN_MASS,
};
use crate::grid::{before, inside, interior, open_kind, put, square, steady, Grid};
use crate::point::pointwise;
use crate::sand::{
    arrived, coin_sheet, merged, sand_cell, sand_pass, sand_row, sand_row_steady, sand_rows,
    sand_rows_steady, slid,
};
use crate::wood::{wood_pass, Wood};
use crate::water::{
    after_down, after_down_steady, after_side, after_side_steady, after_sides,
    after_sides_steady, after_up, lift_steady, lift_wood, receptive, transfer, water_cell,
    water_pass, water_row, water_row_steady, water_rows, water_rows_steady, wood_top,
    wood_top_is_first_opening, Flowing,
};

verus! {

/// The sum of the masses of a row.
pub open spec fn row_mass(row: Seq<Cell>) -> int
    decreases row.len(),
{
    if row.len() == 0 {
        0
    } else {
        row_mass(row.drop_last()) + row.last().mass
    }
}

/// The sum of the masses of a grid.
pub open spec fn total_mass(g: Grid) -> int
    decreases g.len(),
{
    if g.len() == 0 {
        0
    } else {
        total_mass(g.drop_last()) + row_mass(g.last())
    }
}

/// Replacing a cell of a row changes the sum by the difference of the masses.
pub proof fn row_mass_after_update(row: Seq<Cell>, x: int, cell: Cell)
    requires
        0 <= x < row.len(),
    ensures
        row_mass(row.update(x, cell)) == row_mass(row) - row[x].mass + cell.mass,
    decreases row.len(),
{
    let new = row.update(x, cell);
    if x == row.len() - 1 {
        assert(new.drop_last() =~= row.drop_last());
    } else {
        assert(new.drop_last() =~= row.drop_last().update(x, cell));
        row_mass_after_update(row.drop_last(), x, cell);
    }
}

/// Replacing a row of a grid changes the sum by the difference of the rows.
pub proof fn total_mass_after_update(g: Grid, y: int, row: Seq<Cell>)
    requires
        0 <= y < g.len(),
    ensures
        total_mass(g.update(y, row)) == total_mass(g) - row_mass(g[y]) + row_mass(row),
    decreases g.len(),
{
    let new = g.update(y, row);
    if y == g.len() - 1 {
        assert(new.drop_last() =~= g.drop_last());
    } else {
        assert(new.drop_last() =~= g.drop_last().update(y, row));
        total_mass_after_update(g.drop_last(), y, row);
    }
}

/// Replacing a cell of a grid changes the sum by the difference of the masses.
pub proof fn total_mass_after_put(g: Grid, y: int, x: int, cell: Cell)
    requires
        0 <= y < g.len(),
        0 <= x < g[y].len(),
    ensures
        total_mass(put(g, y, x, cell)) == total_mass(g) - g[y][x].mass + cell.mass,
{
    row_mass_after_update(g[y], x, cell);
    total_mass_after_update(g, y, g[y].update(x, cell));
}

/// The sum of the masses of a row is not negative.
pub proof fn row_mass_is_not_negative(row: Seq<Cell>)
    ensures
        row_mass(row) >= 0,
    decreases row.len(),
{
    if row.len() > 0 {
        row_mass_is_not_negative(row.drop_last());
    }
}

/// The sum of the masses of a grid is not negative.
pub proof fn total_mass_is_not_negative(g: Grid)
    ensures
        total_mass(g) >= 0,
    decreases g.len(),
{
    if g.len() > 0 {
        total_mass_is_not_negative(g.drop_last());
        row_mass_is_not_negative(g.last());
    }
}

/// Two cells of a grid hold no more together than the whole grid.
pub proof fn two_cells_within_total(g: Grid, n: int, y1: int, x1: int, y2: int, x2: int)
    requires
        square(g, n),
        inside(n, y1, x1),
        inside(n, y2, x2),
        y1 != y2 || x1 != x2,
    ensures
        g[y1][x1].mass + g[y2][x2].mass <= total_mass(g),
{
    let first = Cell { mass: 0, ..g[y1][x1] };
    let g1 = put(g, y1, x1, first);
    total_mass_after_put(g, y1, x1, first);
    let second = Cell { mass: 0, ..g1[y2][x2] };
    total_mass_after_put(g1, y2, x2, second);
    total_mass_is_not_negative(put(g1, y2, x2, second));
}

/// Nothing in the grid makes the water rule lose mass: there is no wood to
/// float onto water, and no water so thin that it evaporates.
pub open spec fn calm(snap: Grid) -> bool {
    forall|r: int, c: int|
        0 <= r < snap.len() && 0 <= c < snap[r].len() ==> {
            &&& (#[trigger] snap[r][c]).cell_type != CellType::Wood
            &&& snap[r][c].cell_type == CellType::Water ==> snap[r][c].mass >= MIN_MASS
        }
}

/// A transfer keeps mass: what leaves one cell arrives in the other, and no
/// third cell changes its mass, as long as the source holds the flow and the
/// destination can store it.
pub proof fn transfer_conserves(
    g: Grid,
    n: int,
    sy: int,
    sx: int,
    dy: int,
    dx: int,
    flow: u64,
    least: u64,
)
    requires
        square(g, n),
        inside(n, sy, sx),
        inside(n, dy, dx),
        sy != dy || sx != dx,
        flow <= g[sy][sx].mass,
        g[dy][dx].mass + flow <= u64::MAX,
    ensures
        transfer(g, sy, sx, dy, dx, flow, least)[sy][sx].mass == g[sy][sx].mass - flow,
        transfer(g, sy, sx, dy, dx, flow, least)[dy][dx].mass == g[dy][dx].mass + flow,
        transfer(g, sy, sx, dy, dx, flow, least)[sy][sx].mass + transfer(
            g,
            sy,
            sx,
            dy,
            dx,
            flow,
            least,
        )[dy][dx].mass == g[sy][sx].mass + g[dy][dx].mass,
        forall|r: int, c: int|
            inside(n, r, c) && !(r == sy && c == sx) && !(r == dy && c == dx) ==> (
            #[trigger] transfer(g, sy, sx, dy, dx, flow, least)[r][c]) == g[r][c],
{
}

/// A transfer makes no mass: the sum of the grid stays as it is, or falls
/// where the destination cannot store all that arrives.
pub proof fn transfer_makes_no_mass(
    g: Grid,
    n: int,
    sy: int,
    sx: int,
    dy: int,
    dx: int,
    flow: u64,
    least: u64,
)
    requires
        square(g, n),
        inside(n, sy, sx),
        inside(n, dy, dx),
        sy != dy || sx != dx,
        flow <= g[sy][sx].mass,
    ensures
        total_mass(transfer(g, sy, sx, dy, dx, flow, least)) <= total_mass(g),
        g[dy][dx].mass + flow <= u64::MAX ==> total_mass(transfer(g, sy, sx, dy, dx, flow, least))
            == total_mass(g),
{
    let kept = Cell { mass: sub_mass(g[sy][sx].mass, flow), ..g[sy][sx] };
    let g1 = put(g, sy, sx, kept);
    total_mass_after_put(g, sy, sx, kept);
    let m = add_mass(g1[dy][dx].mass, flow);
    let got = Cell { mass: m, ..g1[dy][dx] };
    let g2 = put(g1, dy, dx, got);
    total_mass_after_put(g1, dy, dx, got);
    if m >= least {
        total_mass_after_put(g2, dy, dx, Cell { cell_type: CellType::Water, ..g2[dy][dx] });
    }
}

/// Lifting wood makes no mass: the sum falls by what the slot that the wood
/// floats into held.
pub proof fn lift_makes_no_mass(g: Grid, n: int, y: int, x: int, top: int)
    requires
        square(g, n),
        inside(n, y, x),
        inside(n, top, x),
        top != y,
    ensures
        total_mass(lift_wood(g, y, x, top)) == total_mass(g) - g[top][x].mass,
{
    let left = Cell { cell_type: CellType::Empty, ..g[y][x] };
    let g1 = put(g, y, x, left);
    total_mass_after_put(g, y, x, left);
    total_mass_after_put(g1, top, x, Cell { cell_type: CellType::Wood, mass: 0, ..g1[top][x] });
}

/// Every interior cell that the pass has not dealt with when it is about to
/// deal with `(y, x)` holds in `g` at least the mass that the snapshot shows:
/// whatever it is about to give away, it has.
pub open spec fn covered(snap: Grid, g: Grid, y: int, x: int) -> bool {
    forall|r: int, c: int|
        interior(snap.len() as int, r, c) && !before(r, c, y, x) ==> (#[trigger] g[r][c]).mass
            >= snap[r][c].mass
}

/// A water cell in the middle of its tick still holds what it has not given
/// away, and so does every cell that the pass has not reached.
pub open spec fn backed(snap: Grid, s: Flowing, y: int, x: int) -> bool {
    s.grid[y][x].mass >= s.remaining && covered(snap, s.grid, y, x + 1)
}

/// The downward step makes no mass.
pub proof fn after_down_makes_no_mass(snap: Grid, g: Grid, n: int, y: int, x: int)
    requires
        steady(snap, n),
        steady(g, n),
        interior(n, y, x),
        covered(snap, g, y, x),
    ensures
        backed(snap, after_down(snap, g, y, x), y, x),
        total_mass(after_down(snap, g, y, x).grid) <= total_mass(g),
        total_mass(g) <= u64::MAX ==> total_mass(after_down(snap, g, y, x).grid) == total_mass(g),
{
    assert(g[y][x].mass >= snap[y][x].mass);
    if open_kind(snap[y + 1][x].cell_type) {
        let flow = down_flow(snap[y][x].mass as int, snap[y + 1][x].mass as int) as u64;
        two_cells_within_total(g, n, y, x, y + 1, x);
        transfer_makes_no_mass(g, n, y, x, y + 1, x, flow, (MIN_MASS + 1) as u64);
    }
}

/// A sideways step makes no mass.
pub proof fn after_side_makes_no_mass(snap: Grid, s: Flowing, n: int, y: int, x: int, nx: int)
    requires
        steady(snap, n),
        steady(s.grid, n),
        interior(n, y, x),
        nx == x + 1 || nx == x - 1,
        backed(snap, s, y, x),
    ensures
        backed(snap, after_side(snap, s, y, x, nx), y, x),
        total_mass(after_side(snap, s, y, x, nx).grid) <= total_mass(s.grid),
        total_mass(s.grid) <= u64::MAX && snap[y][nx].cell_type != CellType::Wood ==> total_mass(
            after_side(snap, s, y, x, nx).grid,
        ) == total_mass(s.grid),
{
    let beside = snap[y][nx];
    if open_kind(beside.cell_type) {
        let flow = side_flow(s.remaining as int, beside.mass as int) as u64;
        two_cells_within_total(s.grid, n, y, x, y, nx);
        transfer_makes_no_mass(s.grid, n, y, x, y, nx, flow, (MIN_MASS + 1) as u64);
    } else if beside.cell_type == CellType::Wood {
        wood_top_is_first_opening(snap, y, nx);
        match wood_top(snap, y, nx) {
            Some(top) => {
                lift_makes_no_mass(s.grid, n, y, nx, top);
            },
            None => {},
        }
    }
}

/// The sideways steps make no mass.
pub proof fn after_sides_make_no_mass(snap: Grid, s: Flowing, n: int, y: int, x: int)
    requires
        steady(snap, n),
        steady(s.grid, n),
        interior(n, y, x),
        backed(snap, s, y, x),
    ensures
        backed(snap, after_sides(snap, s, y, x), y, x),
        total_mass(after_sides(snap, s, y, x).grid) <= total_mass(s.grid),
        total_mass(s.grid) <= u64::MAX && snap[y][x + 1].cell_type != CellType::Wood && snap[y][x
            - 1].cell_type != CellType::Wood ==> total_mass(after_sides(snap, s, y, x).grid)
            == total_mass(s.grid),
{
    if !receptive(snap[y + 1][x].cell_type, snap[y + 1][x].mass) {
        let right = after_side(snap, s, y, x, x + 1);
        after_side_steady(snap, s, n, y, x, x + 1);
        after_side_makes_no_mass(snap, s, n, y, x, x + 1);
        if !(right.done || right.remaining < MIN_FLOW) {
            after_side_makes_no_mass(snap, right, n, y, x, x - 1);
        }
    }
}

/// The upward step makes no mass.
pub proof fn after_up_makes_no_mass(snap: Grid, s: Flowing, n: int, y: int, x: int)
    requires
        steady(snap, n),
        steady(s.grid, n),
        interior(n, y, x),
        backed(snap, s, y, x),
    ensures
        covered(snap, after_up(snap, s, y, x), y, x + 1),
        total_mass(after_up(snap, s, y, x)) <= total_mass(s.grid),
        total_mass(s.grid) <= u64::MAX && snap[y - 1][x].cell_type != CellType::Wood
            ==> total_mass(after_up(snap, s, y, x)) == total_mass(s.grid),
{
    let above = snap[y - 1][x];
    let flow = up_flow(snap[y][x].mass as int, s.remaining as int, above.mass as int) as u64;
    if s.remaining <= MAX_MASS + MAX_COMPRESS {
    } else if open_kind(above.cell_type) {
        two_cells_within_total(s.grid, n, y, x, y - 1, x);
        transfer_makes_no_mass(s.grid, n, y, x, y - 1, x, flow, MIN_MASS);
    } else if above.cell_type == CellType::Wood {
        wood_top_is_first_opening(snap, y - 1, x);
        match wood_top(snap, y - 1, x) {
            Some(top) => {
                let lifted = lift_wood(s.grid, y - 1, x, top);
                lift_steady(s.grid, n, y - 1, x, top);
                lift_makes_no_mass(s.grid, n, y - 1, x, top);
                transfer_makes_no_mass(lifted, n, y, x, y - 1, x, flow, MIN_MASS);
            },
            None => {},
        }
    }
}

/// The tick of one cell makes no mass, and leaves every cell that the pass
/// has not reached with at least its snapshot mass.
pub proof fn water_cell_makes_no_mass(snap: Grid, g: Grid, n: int, y: int, x: int)
    requires
        steady(snap, n),
        steady(g, n),
        interior(n, y, x),
        covered(snap, g, y, x),
    ensures
        covered(snap, water_cell(snap, g, y, x), y, x + 1),
        total_mass(water_cell(snap, g, y, x)) <= total_mass(g),
        total_mass(g) <= u64::MAX && calm(snap) ==> total_mass(water_cell(snap, g, y, x))
            == total_mass(g),
{
    let me = snap[y][x];
    if me.cell_type != CellType::Water {
    } else if me.mass < MIN_MASS {
        total_mass_after_put(g, y, x, Cell { cell_type: CellType::Empty, mass: 0, ..g[y][x] });
    } else {
        let down = after_down(snap, g, y, x);
        after_down_steady(snap, g, n, y, x);
        after_down_makes_no_mass(snap, g, n, y, x);
        if down.remaining >= MIN_FLOW {
            let sides = after_sides(snap, down, y, x);
            after_sides_steady(snap, down, n, y, x);
            after_sides_make_no_mass(snap, down, n, y, x);
            if !(sides.done || sides.remaining < MIN_FLOW) {
                after_up_makes_no_mass(snap, sides, n, y, x);
            }
        }
    }
}

/// The ticks of a row make no mass.
pub proof fn water_row_makes_no_mass(snap: Grid, g: Grid, n: int, y: int, upto: int)
    requires
        steady(snap, n),
        steady(g, n),
        0 < y < n - 1,
        1 <= upto <= n - 1,
        covered(snap, g, y, 1),
    ensures
        covered(snap, water_row(snap, g, y, upto), y, upto),
        total_mass(water_row(snap, g, y, upto)) <= total_mass(g),
        total_mass(g) <= u64::MAX && calm(snap) ==> total_mass(water_row(snap, g, y, upto))
            == total_mass(g),
    decreases upto,
{
    if upto > 1 {
        let sofar = water_row(snap, g, y, upto - 1);
        water_row_makes_no_mass(snap, g, n, y, upto - 1);
        water_row_steady(snap, g, n, y, upto - 1);
        water_cell_makes_no_mass(snap, sofar, n, y, upto - 1);
    }
}

/// The ticks of all rows make no mass.
pub proof fn water_rows_make_no_mass(snap: Grid, g: Grid, n: int, upto: int)
    requires
        steady(snap, n),
        steady(g, n),
        1 <= upto <= n - 1,
        covered(snap, g, 1, 1),
    ensures
        covered(snap, water_rows(snap, g, upto), upto, 1),
        total_mass(water_rows(snap, g, upto)) <= total_mass(g),
        total_mass(g) <= u64::MAX && calm(snap) ==> total_mass(water_rows(snap, g, upto))
            == total_mass(g),
    decreases upto,
{
    if upto > 1 {
        let sofar = water_rows(snap, g, upto - 1);
        water_rows_make_no_mass(snap, g, n, upto - 1);
        water_rows_steady(snap, g, n, upto - 1);
        water_row_makes_no_mass(snap, sofar, n, upto - 1, n - 1);
    }
}

/// Water creates no mass: after the water rule has run over a bordered grid,
/// the masses of all cells together are no more than they were. What is lost
/// is what evaporated, what wood floated onto, and what a cell could not
/// store.
pub proof fn water_creates_no_mass(snap: Grid, n: int)
    requires
        steady(snap, n),
    ensures
        total_mass(water_pass(snap)) <= total_mass(snap),
{
    if n >= 2 {
        water_rows_make_no_mass(snap, snap, n, n - 1);
    }
}

/// Water keeps its mass: over a bordered grid without wood and without
/// water thin enough to evaporate, whose masses a cell could store all
/// together, the water rule leaves the masses of all cells together exactly
/// as they were. Every transfer takes from its source what it gives to its
/// destination.
pub proof fn water_keeps_mass(snap: Grid, n: int)
    requires
        steady(snap, n),
        calm(snap),
        total_mass(snap) <= u64::MAX,
    ensures
        total_mass(water_pass(snap)) == total_mass(snap),
{
    if n >= 2 {
        water_rows_make_no_mass(snap, snap, n, n - 1);
    }
}

/// Pouring one cell into another makes no mass.
pub proof fn merged_makes_no_mass(g: Grid, n: int, y: int, x: int, ty: int, tx: int)
    requires
        square(g, n),
        inside(n, y, x),
        inside(n, ty, tx),
        y != ty || x != tx,
    ensures
        total_mass(merged(g, y, x, ty, tx)) <= total_mass(g),
        g[ty][tx].mass + g[y][x].mass <= u64::MAX ==> total_mass(merged(g, y, x, ty, tx))
            == total_mass(g),
{
    let all = add_mass(g[ty][tx].mass, g[y][x].mass);
    let full = Cell { cell_type: CellType::Water, mass: all, ..g[ty][tx] };
    let g1 = put(g, ty, tx, full);
    total_mass_after_put(g, ty, tx, full);
    total_mass_after_put(g1, y, x, Cell { mass: 0, ..g1[y][x] });
}

/// A grain that slides makes no mass.
pub proof fn slid_makes_no_mass(snap: Grid, g: Grid, n: int, y: int, x: int, tx: int)
    requires
        steady(snap, n),
        steady(g, n),
        interior(n, y, x),
        tx == x + 1 || tx == x - 1,
    ensures
        total_mass(slid(snap, g, y, x, tx)) <= total_mass(g),
{
    let target = snap[y + 1][tx].cell_type;
    if target == CellType::Empty {
        arrived_keeps_mass(g, n, y, x, tx);
    } else if target == CellType::Water {
        let wy = y + 1;
        if open_kind(snap[wy - 1][tx].cell_type) {
            merged_makes_no_mass(g, n, wy, tx, wy - 1, tx);
            arrived_keeps_mass(merged(g, wy, tx, wy - 1, tx), n, y, x, tx);
        } else if open_kind(snap[wy][tx + 1].cell_type) {
            merged_makes_no_mass(g, n, wy, tx, wy, tx + 1);
            arrived_keeps_mass(merged(g, wy, tx, wy, tx + 1), n, y, x, tx);
        } else if open_kind(snap[wy][tx - 1].cell_type) {
            merged_makes_no_mass(g, n, wy, tx, wy, tx - 1);
            arrived_keeps_mass(merged(g, wy, tx, wy, tx - 1), n, y, x, tx);
        } else if open_kind(snap[wy + 1][tx].cell_type) {
            merged_makes_no_mass(g, n, wy, tx, wy + 1, tx);
            arrived_keeps_mass(merged(g, wy, tx, wy + 1, tx), n, y, x, tx);
        }
    }
}

/// A grain that arrives moves no mass.
pub proof fn arrived_keeps_mass(g: Grid, n: int, y: int, x: int, tx: int)
    requires
        square(g, n),
        inside(n, y, x),
        inside(n, y + 1, tx),
    ensures
        total_mass(arrived(g, y, x, tx)) == total_mass(g),
{
    let left = Cell { cell_type: CellType::Empty, ..g[y][x] };
    let g1 = put(g, y, x, left);
    total_mass_after_put(g, y, x, left);
    total_mass_after_put(g1, y + 1, tx, Cell { cell_type: CellType::Sand, ..g1[y + 1][tx] });
}

/// The tick of one cell under the sand rule makes no mass.
pub proof fn sand_cell_makes_no_mass(
    snap: Grid,
    g: Grid,
    n: int,
    y: int,
    x: int,
    go_right: bool,
)
    requires
        steady(snap, n),
        steady(g, n),
        interior(n, y, x),
    ensures
        total_mass(sand_cell(snap, g, y, x, go_right)) <= total_mass(g),
{
    if snap[y][x].cell_type == CellType::Sand {
        if open_kind(snap[y + 1][x].cell_type) {
            let below = g[y + 1][x];
            let up = Cell { cell_type: below.cell_type, mass: below.mass, ..g[y][x] };
            let g1 = put(g, y, x, up);
            total_mass_after_put(g, y, x, up);
            total_mass_after_put(
                g1,
                y + 1,
                x,
                Cell { cell_type: CellType::Sand, mass: 0, ..g1[y + 1][x] },
            );
        } else {
            slid_makes_no_mass(snap, g, n, y, x, x + 1);
            slid_makes_no_mass(snap, g, n, y, x, x - 1);
        }
    }
}

/// The ticks of a row under the sand rule make no mass.
pub proof fn sand_row_makes_no_mass(snap: Grid, g: Grid, n: int, y: int, coins: Seq<bool>)
    requires
        steady(snap, n),
        steady(g, n),
        0 < y < n - 1,
        coins.len() <= n - 2,
    ensures
        total_mass(sand_row(snap, g, y, coins)) <= total_mass(g),
    decreases coins.len(),
{
    if coins.len() > 0 {
        let sofar = sand_row(snap, g, y, coins.drop_last());
        sand_row_makes_no_mass(snap, g, n, y, coins.drop_last());
        sand_row_steady(snap, g, n, y, coins.drop_last());
        sand_cell_makes_no_mass(snap, sofar, n, y, coins.len() as int, coins.last());
    }
}

/// The ticks of all rows under the sand rule make no mass.
pub proof fn sand_rows_make_no_mass(snap: Grid, g: Grid, n: int, coins: Seq<Seq<bool>>)
    requires
        steady(snap, n),
        steady(g, n),
        coins.len() == 0 || coins.len() <= n - 2,
        forall|r: int| 0 <= r < coins.len() ==> (#[trigger] coins[r]).len() <= n - 2,
    ensures
        total_mass(sand_rows(snap, g, coins)) <= total_mass(g),
    decreases coins.len(),
{
    if coins.len() > 0 {
        let sofar = sand_rows(snap, g, coins.drop_last());
        sand_rows_make_no_mass(snap, g, n, coins.drop_last());
        sand_rows_steady(snap, g, n, coins.drop_last());
        sand_row_makes_no_mass(snap, sofar, n, coins.len() as int, coins.last());
    }
}

/// Sand creates no mass, whatever the coins: it moves the water it pushes
/// aside, and loses only what a cell cannot store and what a grain itself
/// held.
pub proof fn sand_creates_no_mass(snap: Grid, n: int, coins: Seq<Seq<bool>>)
    requires
        steady(snap, n),
        coin_sheet(coins, n),
    ensures
        total_mass(sand_pass(snap, coins)) <= total_mass(snap),
{
    sand_rows_make_no_mass(snap, snap, n, coins);
}

/// Two rows whose cells hold the same masses have the same sum.
pub proof fn row_mass_of_equal_masses(a: Seq<Cell>, b: Seq<Cell>)
    requires
        a.len() == b.len(),
        forall|c: int| 0 <= c < a.len() ==> (#[trigger] a[c]).mass == b[c].mass,
    ensures
        row_mass(a) == row_mass(b),
    decreases a.len(),
{
    if a.len() > 0 {
        row_mass_of_equal_masses(a.drop_last(), b.drop_last());
    }
}

/// Two grids whose cells hold the same masses have the same sum.
pub proof fn total_mass_of_equal_masses(a: Grid, b: Grid)
    requires
        a.len() == b.len(),
        forall|r: int| 0 <= r < a.len() ==> (#[trigger] a[r]).len() == b[r].len(),
        forall|r: int, c: int|
            0 <= r < a.len() && 0 <= c < a[r].len() ==> (#[trigger] a[r][c]).mass
                == b[r][c].mass,
    ensures
        total_mass(a) == total_mass(b),
    decreases a.len(),
{
    if a.len() > 0 {
        total_mass_of_equal_masses(a.drop_last(), b.drop_last());
        row_mass_of_equal_masses(a.last(), b.last());
    }
}

/// Wood moves no mass: falling wood changes materials only.
pub proof fn wood_moves_no_mass(g: Grid)
    ensures
        total_mass(wood_pass(g)) == total_mass(g),
{
    total_mass_of_equal_masses(pointwise::<Wood>(g), g);
}

} // verus!
