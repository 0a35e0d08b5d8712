//! The sand rule: grains fall straight down where they can, else slide to
//! one of the two cells diagonally below, and push water out of their way.
//!
//! Every decision is taken on the snapshot of the grid from before the pass;
//! every change is made in the scratch buffer.
use vstd::prelude::*;
use crate::cell::CellType;
use crate::flow::add_mass;
use crate::grid::{
    inside, interior, open_kind, same_ring, same_ring_chains, steady, with_content, with_kind,
    with_mass, Grid,
};
use crate::plane::Plane;
use crate::random::ratio;

verus! {

/// `g` after the water at `(y, x)` has poured all of its mass into the cell
/// at `(ty, tx)`, which is water from then on.
pub open spec fn merged(g: Grid, y: int, x: int, ty: int, tx: int) -> Grid {
    let all = add_mass(g[ty][tx].mass, g[y][x].mass);
    with_mass(with_content(g, ty, tx, CellType::Water, all), y, x, 0)
}

/// `g` after the water at `(y, x)` has been pushed aside into the first of
/// the cells above it, right of it, left of it and below it that the
/// snapshot shows as vacuum or water; `None` where there is no such cell.
pub open spec fn displaced(snap: Grid, g: Grid, y: int, x: int) -> Option<Grid> {
    if open_kind(snap[y - 1][x].cell_type) {
        Some(merged(g, y, x, y - 1, x))
    } else if open_kind(snap[y][x + 1].cell_type) {
        Some(merged(g, y, x, y, x + 1))
    } else if open_kind(snap[y][x - 1].cell_type) {
        Some(merged(g, y, x, y, x - 1))
    } else if open_kind(snap[y + 1][x].cell_type) {
        Some(merged(g, y, x, y + 1, x))
    } else {
        None
    }
}

/// `g` after the grain at `(y, x)` has changed places with whatever the
/// scratch buffer holds under it: the grain's old cell takes that content,
/// the cell below is sand without mass.
pub open spec fn fallen(g: Grid, y: int, x: int) -> Grid {
    let below = g[y + 1][x];
    with_content(
        with_content(g, y, x, below.cell_type, below.mass),
        y + 1,
        x,
        CellType::Sand,
        0,
    )
}

/// `g` after the grain at `(y, x)` has left for column `tx` of the row below.
pub open spec fn arrived(g: Grid, y: int, x: int, tx: int) -> Grid {
    with_kind(with_kind(g, y, x, CellType::Empty), y + 1, tx, CellType::Sand)
}

/// `g` after the grain at `(y, x)` has tried the cell in column `tx` of the
/// row below: it moves into vacuum; it moves into water that can be pushed
/// aside; else it stays.
pub open spec fn slid(snap: Grid, g: Grid, y: int, x: int, tx: int) -> Grid {
    let target = snap[y + 1][tx].cell_type;
    if target == CellType::Empty {
        arrived(g, y, x, tx)
    } else if target == CellType::Water {
        match displaced(snap, g, y + 1, tx) {
            Some(pushed) => arrived(pushed, y, x, tx),
            None => g,
        }
    } else {
        g
    }
}

/// The grain at `(y, x)` cannot fall straight down and has both diagonals to
/// choose from: the one case in which chance decides.
pub open spec fn torn(snap: Grid, y: int, x: int) -> bool {
    &&& snap[y][x].cell_type == CellType::Sand
    &&& !open_kind(snap[y + 1][x].cell_type)
    &&& open_kind(snap[y + 1][x - 1].cell_type)
    &&& open_kind(snap[y + 1][x + 1].cell_type)
}

/// The scratch buffer `g` after the tick of the cell at `(y, x)` of the
/// snapshot `snap`, where `go_right` is the coin that is consulted only if
/// both diagonals are available.
pub open spec fn sand_cell(snap: Grid, g: Grid, y: int, x: int, go_right: bool) -> Grid {
    if snap[y][x].cell_type != CellType::Sand {
        g
    } else if open_kind(snap[y + 1][x].cell_type) {
        fallen(g, y, x)
    } else {
        let left = open_kind(snap[y + 1][x - 1].cell_type);
        let right = open_kind(snap[y + 1][x + 1].cell_type);
        if left && right {
            slid(
                snap,
                g,
                y,
                x,
                if go_right {
                    x + 1
                } else {
                    x - 1
                },
            )
        } else if left {
            slid(snap, g, y, x, x - 1)
        } else if right {
            slid(snap, g, y, x, x + 1)
        } else {
            g
        }
    }
}

/// The scratch buffer `g` after the ticks of the cells of row `y` in columns
/// `1` to `coins.len()`, from the left, the cell in column `c` with the coin
/// `coins[c - 1]`.
pub open spec fn sand_row(snap: Grid, g: Grid, y: int, coins: Seq<bool>) -> Grid
    decreases coins.len(),
{
    if coins.len() == 0 {
        g
    } else {
        sand_cell(
            snap,
            sand_row(snap, g, y, coins.drop_last()),
            y,
            coins.len() as int,
            coins.last(),
        )
    }
}

/// The scratch buffer `g` after the ticks of the interior cells of rows `1`
/// to `coins.len()`, from the top, row `r` with the coins `coins[r - 1]`.
pub open spec fn sand_rows(snap: Grid, g: Grid, coins: Seq<Seq<bool>>) -> Grid
    decreases coins.len(),
{
    if coins.len() == 0 {
        g
    } else {
        sand_row(snap, sand_rows(snap, g, coins.drop_last()), coins.len() as int, coins.last())
    }
}

/// One coin for each interior cell of an `n` by `n` grid.
pub open spec fn coin_sheet(coins: Seq<Seq<bool>>, n: int) -> bool {
    &&& coins.len() == if n >= 3 {
        n - 2
    } else {
        0
    }
    &&& forall|r: int| 0 <= r < coins.len() ==> (#[trigger] coins[r]).len() == n - 2
}

/// The grid after the sand rule has run over every interior cell of `snap`,
/// row by row from the top and from left to right within a row, with the
/// coins of `coins`.
pub open spec fn sand_pass(snap: Grid, coins: Seq<Seq<bool>>) -> Grid {
    sand_rows(snap, snap, coins)
}

/// A grain that cannot fall and has vacuum on both diagonals moves to
/// exactly one of them, the one that the coin names, and never stays: its
/// old cell is vacuum, the chosen cell is sand, and nothing else changes.
pub proof fn torn_grain_takes_one_diagonal(
    snap: Grid,
    g: Grid,
    n: int,
    y: int,
    x: int,
    go_right: bool,
)
    requires
        steady(snap, n),
        steady(g, n),
        interior(n, y, x),
        snap[y][x].cell_type == CellType::Sand,
        !open_kind(snap[y + 1][x].cell_type),
        snap[y + 1][x - 1].cell_type == CellType::Empty,
        snap[y + 1][x + 1].cell_type == CellType::Empty,
    ensures
        torn(snap, y, x),
        sand_cell(snap, g, y, x, go_right)[y][x].cell_type == CellType::Empty,
        sand_cell(snap, g, y, x, go_right)[y + 1][if go_right {
            x + 1
        } else {
            x - 1
        }].cell_type == CellType::Sand,
        forall|r: int, c: int|
            inside(n, r, c) && !(r == y && c == x) && !(r == y + 1 && c == if go_right {
                x + 1
            } else {
                x - 1
            }) ==> (#[trigger] sand_cell(snap, g, y, x, go_right)[r][c]) == g[r][c],
{
}

/// The tick of one cell keeps the shape, the tags and the ring.
pub proof fn sand_cell_steady(snap: Grid, g: Grid, n: int, y: int, x: int, go_right: bool)
    requires
        steady(snap, n),
        steady(g, n),
        interior(n, y, x),
    ensures
        steady(sand_cell(snap, g, y, x, go_right), n),
        same_ring(sand_cell(snap, g, y, x, go_right), g),
{
}

/// The ticks of a row keep the shape, the tags and the ring.
pub proof fn sand_row_steady(snap: Grid, g: Grid, n: int, y: int, coins: Seq<bool>)
    requires
        steady(snap, n),
        steady(g, n),
        0 < y < n - 1,
        coins.len() <= n - 2,
    ensures
        steady(sand_row(snap, g, y, coins), n),
        same_ring(sand_row(snap, g, y, coins), g),
    decreases coins.len(),
{
    if coins.len() > 0 {
        let before = sand_row(snap, g, y, coins.drop_last());
        sand_row_steady(snap, g, n, y, coins.drop_last());
        sand_cell_steady(snap, before, n, y, coins.len() as int, coins.last());
        same_ring_chains(sand_row(snap, g, y, coins), before, g);
    }
}

/// The ticks of all rows keep the shape, the tags and the ring.
pub proof fn sand_rows_steady(snap: Grid, g: Grid, n: int, coins: Seq<Seq<bool>>)
    requires
        steady(snap, n),
        steady(g, n),
        coins.len() == 0 || coins.len() <= n - 2,
        forall|r: int| 0 <= r < coins.len() ==> (#[trigger] coins[r]).len() <= n - 2,
    ensures
        steady(sand_rows(snap, g, coins), n),
        same_ring(sand_rows(snap, g, coins), g),
    decreases coins.len(),
{
    if coins.len() > 0 {
        let before = sand_rows(snap, g, coins.drop_last());
        sand_rows_steady(snap, g, n, coins.drop_last());
        sand_row_steady(snap, before, n, coins.len() as int, coins.last());
        same_ring_chains(sand_rows(snap, g, coins), before, g);
    }
}

/// The sand rule never touches the ring, whatever the coins.
pub proof fn sand_pass_steady(snap: Grid, n: int, coins: Seq<Seq<bool>>)
    requires
        steady(snap, n),
        coin_sheet(coins, n),
    ensures
        steady(sand_pass(snap, coins), n),
        same_ring(sand_pass(snap, coins), snap),
{
    sand_rows_steady(snap, snap, n, coins);
}

/// Pushes the water at `(y, x)` aside; gives whether it found a place.
pub(crate) fn move_water(
    snap: &Plane,
    scratch: &mut Plane,
    n: usize,
    y: usize,
    x: usize,
) -> (moved: bool)
    requires
        steady(snap@, n as int),
        steady(old(scratch)@, n as int),
        interior(n as int, y as int, x as int),
    ensures
        moved ==> displaced(snap@, old(scratch)@, y as int, x as int) == Some(final(scratch)@),
        !moved ==> displaced(snap@, old(scratch)@, y as int, x as int) is None,
        !moved ==> final(scratch)@ == old(scratch)@,
        steady(final(scratch)@, n as int),
{
    if snap.is_open(y - 1, x) {
        pour(scratch, n, y, x, y - 1, x);
        true
    } else if snap.is_open(y, x + 1) {
        pour(scratch, n, y, x, y, x + 1);
        true
    } else if snap.is_open(y, x - 1) {
        pour(scratch, n, y, x, y, x - 1);
        true
    } else if snap.is_open(y + 1, x) {
        pour(scratch, n, y, x, y + 1, x);
        true
    } else {
        false
    }
}

/// Pours the whole mass of the cell at `(y, x)` into the cell at `(ty, tx)`.
fn pour(scratch: &mut Plane, n: usize, y: usize, x: usize, ty: usize, tx: usize)
    requires
        steady(old(scratch)@, n as int),
        interior(n as int, y as int, x as int),
        interior(n as int, ty as int, tx as int),
    ensures
        final(scratch)@ == merged(old(scratch)@, y as int, x as int, ty as int, tx as int),
        steady(final(scratch)@, n as int),
{
    let held: u64 = scratch.mass(ty, tx);
    let more: u64 = scratch.mass(y, x);
    let all: u64 = if held <= u64::MAX - more {
        held + more
    } else {
        u64::MAX
    };
    scratch.set_content(ty, tx, CellType::Water, all);
    scratch.set_mass(y, x, 0);
}

/// Lets the grain at `(y, x)` try the cell in column `tx` of the row below.
pub(crate) fn move_sand(snap: &Plane, scratch: &mut Plane, n: usize, y: usize, x: usize, tx: usize)
    requires
        steady(snap@, n as int),
        steady(old(scratch)@, n as int),
        interior(n as int, y as int, x as int),
        tx == x + 1 || tx == x - 1,
    ensures
        final(scratch)@ == slid(snap@, old(scratch)@, y as int, x as int, tx as int),
        steady(final(scratch)@, n as int),
{
    let target = snap.kind(y + 1, tx);
    if target == CellType::Empty || (target == CellType::Water && move_water(
        snap,
        scratch,
        n,
        y + 1,
        tx,
    )) {
        scratch.set_kind(y, x, CellType::Empty);
        scratch.set_kind(y + 1, tx, CellType::Sand);
    }
}

/// Whether the grain at `(y, x)` needs a coin to choose its diagonal.
pub(crate) fn is_torn(snap: &Plane, n: usize, y: usize, x: usize) -> (b: bool)
    requires
        steady(snap@, n as int),
        interior(n as int, y as int, x as int),
    ensures
        b == torn(snap@, y as int, x as int),
{
    snap.kind(y, x) == CellType::Sand && !snap.is_open(y + 1, x) && snap.is_open(y + 1, x - 1)
        && snap.is_open(y + 1, x + 1)
}

/// The tick of the cell at `(y, x)` under the sand rule, with the coin
/// `go_right` for the case that both diagonals are available.
pub(crate) fn settle(snap: &Plane, scratch: &mut Plane, n: usize, y: usize, x: usize, go_right: bool)
    requires
        steady(snap@, n as int),
        steady(old(scratch)@, n as int),
        interior(n as int, y as int, x as int),
    ensures
        final(scratch)@ == sand_cell(snap@, old(scratch)@, y as int, x as int, go_right),
        steady(final(scratch)@, n as int),
{
    if snap.kind(y, x) != CellType::Sand {
        return ;
    }
    if snap.is_open(y + 1, x) {
        let below = scratch.get(y + 1, x);
        scratch.set_content(y, x, below.cell_type, below.mass);
        scratch.set_content(y + 1, x, CellType::Sand, 0);
    } else {
        let left: bool = snap.is_open(y + 1, x - 1);
        let right: bool = snap.is_open(y + 1, x + 1);
        if left && right {
            if go_right {
                move_sand(snap, scratch, n, y, x, x + 1);
            } else {
                move_sand(snap, scratch, n, y, x, x - 1);
            }
        } else if left {
            move_sand(snap, scratch, n, y, x, x - 1);
        } else if right {
            move_sand(snap, scratch, n, y, x, x + 1);
        }
    }
}

/// Runs the sand rule over every interior cell of `snap`, which `scratch`
/// starts as a copy of, and tosses a coin of `rng` for each grain that has
/// both diagonals to choose from. Gives the coins that decided.
pub(crate) fn sand_sweep(
    snap: &Plane,
    scratch: &mut Plane,
    rng: &mut rand::rngs::StdRng,
) -> (coins: Ghost<Seq<Seq<bool>>>)
    requires
        steady(snap@, snap@.len() as int),
        old(scratch)@ == snap@,
    ensures
        coin_sheet(coins@, snap@.len() as int),
        final(scratch)@ == sand_pass(snap@, coins@),
        steady(final(scratch)@, snap@.len() as int),
{
    let n: usize = snap.dim().0;
    let ghost mut sheet: Seq<Seq<bool>> = Seq::empty();
    if n < 3 {
        return Ghost(sheet);
    }
    let mut y: usize = 1;
    while y < n - 1
        invariant
            n >= 3,
            1 <= y <= n - 1,
            steady(snap@, n as int),
            steady(scratch@, n as int),
            sheet.len() == y - 1,
            forall|r: int| 0 <= r < sheet.len() ==> (#[trigger] sheet[r]).len() == n - 2,
            scratch@ == sand_rows(snap@, snap@, sheet),
        decreases n - y,
    {
        let ghost start = scratch@;
        let ghost mut row: Seq<bool> = Seq::empty();
        let mut x: usize = 1;
        while x < n - 1
            invariant
                n >= 3,
                1 <= y < n - 1,
                1 <= x <= n - 1,
                steady(snap@, n as int),
                steady(scratch@, n as int),
                row.len() == x - 1,
                scratch@ == sand_row(snap@, start, y as int, row),
            decreases n - x,
        {
            let go_right: bool = if is_torn(snap, n, y, x) {
                ratio(rng, 1, 2)
            } else {
                false
            };
            settle(snap, scratch, n, y, x, go_right);
            proof {
                assert(row.push(go_right).drop_last() =~= row);
                row = row.push(go_right);
            }
            x = x + 1;
        }
        proof {
            assert(sheet.push(row).drop_last() =~= sheet);
            sheet = sheet.push(row);
        }
        y = y + 1;
    }
    Ghost(sheet)
}

} // verus!
