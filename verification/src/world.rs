//! The simulation: a square grid of cells with its scratch buffer, the five
//! material rules in their fixed order, and the operations that generate
//! terrain, paint cells and read them back.
use vstd::prelude::*;
use crate::cell::{Cell, CellType};
use crate::conservation::{
    calm, sand_creates_no_mass, total_mass, water_creates_no_mass, water_keeps_mass,
    wood_moves_no_mass,
};
use crate::fire::{fire_pass, Fire};
use crate::flow::add_mass;
use crate::grid::{
    before, bordered, inside, interior, on_ring, same_ring, same_ring_chains, square, steady,
    tagged, with_content, with_mass, Grid,
};
use crate::plane::{fits, Plane};
use crate::point::{gather, pointwise_steady};
use crate::random::{ratio, seeded};
use crate::sand::{coin_sheet, sand_pass, sand_pass_steady, sand_sweep};
use crate::smoke::{smoke_pass, Smoke};
use crate::smooth::{smooth_pass, smooth_sweep, smoothing_keeps_border};
use crate::water::{water_pass, water_pass_steady, water_sweep};
use crate::wood::{wood_pass, Wood};

verus! {

/// The mass of the droplet that painting water onto vacuum leaves.
pub const DROPLET: u64 = 1_000;

/// The mass that painting water onto water adds.
pub const POUR: u64 = 2_000;

/// The answer to a position that is not one a caller may touch.
#[derive(Clone, Copy, PartialEq, Eq, Structural, Debug)]
pub struct OutOfBounds;

/// Everything a simulation holds besides its cells and its generator.
#[derive(Clone, Copy, PartialEq, Eq, Structural, Debug)]
pub struct Settings {
    /// The side length of the grid.
    pub num_of_blocks: usize,
    /// Ticks per second that `update_speed` turns into the tick interval.
    pub fps: i32,
    /// Chance, in hundredths, that `rand_generate` makes a cell dirt.
    pub threshold: u32,
    /// The material that `transform_cell` paints.
    pub selected_cell_type: CellType,
    /// Whether a renderer should draw partly filled water lower in its cell.
    pub use_shift: bool,
    /// The milliseconds that must pass between two ticks.
    pub speed: u128,
    /// The time of the last tick, in milliseconds on the caller's clock.
    pub last_frame_time: u128,
}

/// The simulation state: the current buffer, the scratch buffer that every
/// pass starts as a copy of the current one, the settings and the generator.
pub struct World {
    data: Plane,
    tmp: Plane,
    settings: Settings,
    rng: rand::rngs::StdRng,
}

impl View for World {
    type V = Grid;

    /// The current buffer.
    closed spec fn view(&self) -> Grid {
        self.data@
    }
}

/// The grid of a new simulation: vacuum everywhere, each cell tagged with its
/// position.
pub open spec fn fresh(n: int) -> Grid {
    Seq::new(
        n as nat,
        |r: int|
            Seq::new(
                n as nat,
                |c: int| Cell { x: c as usize, y: r as usize, cell_type: CellType::Empty, mass: 0 },
            ),
    )
}

/// `g` with every cell of its ring turned to dirt.
pub open spec fn framed(g: Grid) -> Grid {
    Seq::new(
        g.len(),
        |r: int|
            Seq::new(
                g[r].len(),
                |c: int|
                    if on_ring(g.len() as int, r, c) {
                        Cell { cell_type: CellType::Dirt, ..g[r][c] }
                    } else {
                        g[r][c]
                    },
            ),
    )
}

/// Adding the border is idempotent.
pub proof fn framing_twice_is_framing_once(g: Grid)
    ensures
        framed(framed(g)) == framed(g),
{
    assert(framed(framed(g)) =~~= framed(g));
}

/// `g` with every cell emptied and the ring turned to dirt.
pub open spec fn cleared(g: Grid) -> Grid {
    Seq::new(
        g.len(),
        |r: int|
            Seq::new(
                g[r].len(),
                |c: int|
                    Cell {
                        cell_type: if on_ring(g.len() as int, r, c) {
                            CellType::Dirt
                        } else {
                            CellType::Empty
                        },
                        mass: 0,
                        ..g[r][c]
                    },
            ),
    )
}

/// `g` after `kind` has been painted at `(y, x)`. Water leaves a droplet on
/// vacuum, adds to water and does nothing to anything else; every other
/// material replaces what is there and leaves no mass.
pub open spec fn painted(g: Grid, y: int, x: int, kind: CellType) -> Grid {
    if kind != CellType::Water {
        with_content(g, y, x, kind, 0)
    } else if g[y][x].cell_type == CellType::Empty {
        with_content(g, y, x, CellType::Water, DROPLET)
    } else if g[y][x].cell_type == CellType::Water {
        with_mass(g, y, x, add_mass(g[y][x].mass, POUR))
    } else {
        g
    }
}

/// The grid of a tick before its last rule: sand, water, fire, smoke, each
/// rule on the result of the one before, the sand rule with the coins of
/// `coins`.
pub open spec fn before_wood(g: Grid, coins: Seq<Seq<bool>>) -> Grid {
    smoke_pass(fire_pass(water_pass(sand_pass(g, coins))))
}

/// The grid after one tick: sand, water, fire, smoke, wood, each rule on
/// the result of the one before, the sand rule with the coins of `coins`.
pub open spec fn ticked(g: Grid, coins: Seq<Seq<bool>>) -> Grid {
    wood_pass(before_wood(g, coins))
}

/// The grid after as many ticks as `rounds` holds sheets of coins, the
/// first tick with the first sheet.
pub open spec fn ticks(g: Grid, rounds: Seq<Seq<Seq<bool>>>) -> Grid
    decreases rounds.len(),
{
    if rounds.len() == 0 {
        g
    } else {
        ticked(ticks(g, rounds.drop_last()), rounds.last())
    }
}

/// A tick keeps the shape and the tags and never touches the ring.
pub proof fn tick_keeps_border(g: Grid, n: int, coins: Seq<Seq<bool>>)
    requires
        steady(g, n),
        coin_sheet(coins, n),
    ensures
        steady(ticked(g, coins), n),
        same_ring(ticked(g, coins), g),
{
    let sand = sand_pass(g, coins);
    sand_pass_steady(g, n, coins);
    let water = water_pass(sand);
    water_pass_steady(sand, n);
    same_ring_chains(water, sand, g);
    let fire = fire_pass(water);
    pointwise_steady::<Fire>(water, n);
    same_ring_chains(fire, water, g);
    let smoke = smoke_pass(fire);
    pointwise_steady::<Smoke>(fire, n);
    same_ring_chains(smoke, fire, g);
    pointwise_steady::<Wood>(smoke, n);
    same_ring_chains(wood_pass(smoke), smoke, g);
}

/// The border is invariant: after any number of ticks, whatever the coins,
/// the ring is dirt, and each of its cells is the very cell it was.
pub proof fn border_outlasts_ticks(g: Grid, n: int, rounds: Seq<Seq<Seq<bool>>>)
    requires
        steady(g, n),
        forall|i: int| 0 <= i < rounds.len() ==> coin_sheet(#[trigger] rounds[i], n),
    ensures
        steady(ticks(g, rounds), n),
        same_ring(ticks(g, rounds), g),
    decreases rounds.len(),
{
    if rounds.len() > 0 {
        let sofar = ticks(g, rounds.drop_last());
        border_outlasts_ticks(g, n, rounds.drop_last());
        tick_keeps_border(sofar, n, rounds.last());
        same_ring_chains(ticks(g, rounds), sofar, g);
    }
}

/// The whole milliseconds between two ticks at `fps` ticks per second: a
/// second's nanoseconds divided by `fps`, in whole milliseconds.
pub open spec fn interval_ms(fps: int) -> int {
    (1_000_000_000int / fps) / 1_000_000
}

/// What `rand_generate` may turn `old` into where the chance of dirt is
/// `threshold` in a hundred: every cell keeps mass and tags and is dirt or
/// vacuum, all dirt where the chance is certain, and vacuum inside the ring
/// where there is none.
pub open spec fn scattered(old: Grid, new: Grid, threshold: u32) -> bool {
    forall|r: int, c: int|
        0 <= r < old.len() && 0 <= c < old[r].len() ==> {
            &&& (#[trigger] new[r][c]).mass == old[r][c].mass
            &&& new[r][c].x == old[r][c].x
            &&& new[r][c].y == old[r][c].y
            &&& new[r][c].cell_type == CellType::Dirt || new[r][c].cell_type == CellType::Empty
            &&& threshold >= 100 ==> new[r][c].cell_type == CellType::Dirt
            &&& threshold == 0 && !on_ring(old.len() as int, r, c) ==> new[r][c].cell_type
                == CellType::Empty
        }
}

/// The terrain that a draw leaves in a cell: dirt on a hit, else vacuum.
pub fn terrain(hit: bool) -> (kind: CellType)
    ensures
        kind == if hit {
            CellType::Dirt
        } else {
            CellType::Empty
        },
{
    if hit {
        CellType::Dirt
    } else {
        CellType::Empty
    }
}

impl World {
    /// The settings.
    pub closed spec fn spec_settings(&self) -> Settings {
        self.settings
    }

    /// The scratch buffer: the second array of the same shape, which every
    /// pass fills with the next state before the two change places.
    pub closed spec fn scratch(&self) -> Grid {
        self.tmp@
    }

    /// The side length of the grid.
    pub open spec fn side(&self) -> usize {
        self.settings().num_of_blocks
    }

    /// Both buffers are square with the side that the simulation was made
    /// with, and every cell of both carries its position.
    pub open spec fn wf(&self) -> bool {
        &&& fits(self.side())
        &&& square(self@, self.side() as int)
        &&& tagged(self@)
        &&& square(self.scratch(), self.side() as int)
        &&& tagged(self.scratch())
    }

    /// The outermost ring of the grid is dirt.
    pub open spec fn bordered(&self) -> bool {
        bordered(self@)
    }

    /// A tick is due at `now`: at least the interval has passed since the
    /// last one. A clock that ran backwards counts as no time passed.
    pub open spec fn due(&self, now: u128) -> bool {
        (if now >= self.settings().last_frame_time {
            now - self.settings().last_frame_time
        } else {
            0
        }) >= self.settings().speed
    }

    /// A simulation of `num_of_blocks` by `num_of_blocks` vacuum cells in
    /// each of its two buffers, at 60 ticks per second, whose generator is
    /// seeded with `seed`.
    pub fn new(num_of_blocks: usize, seed: u64) -> (w: World)
        requires
            fits(num_of_blocks),
        ensures
            w.wf(),
            w@ == fresh(num_of_blocks as int),
            w.scratch() == fresh(num_of_blocks as int),
            w.settings() == (Settings {
                num_of_blocks: num_of_blocks,
                fps: 60,
                threshold: 50,
                selected_cell_type: CellType::Water,
                use_shift: false,
                speed: interval_ms(60) as u128,
                last_frame_time: 0,
            }),
    {
        let n: usize = num_of_blocks;
        let mut data = Plane::filled(n);
        let mut y: usize = 0;
        while y < n
            invariant
                y <= n,
                square(data@, n as int),
                forall|r: int, c: int|
                    inside(n as int, r, c) ==> (#[trigger] data@[r][c]) == if r < y {
                        fresh(n as int)[r][c]
                    } else {
                        Cell::empty()
                    },
            decreases n - y,
        {
            let mut x: usize = 0;
            while x < n
                invariant
                    y < n,
                    x <= n,
                    square(data@, n as int),
                    forall|r: int, c: int|
                        inside(n as int, r, c) ==> (#[trigger] data@[r][c]) == if before(
                            r,
                            c,
                            y as int,
                            x as int,
                        ) {
                            fresh(n as int)[r][c]
                        } else {
                            Cell::empty()
                        },
                decreases n - x,
            {
                data.set(y, x, Cell { x: x, y: y, cell_type: CellType::Empty, mass: 0 });
                x = x + 1;
            }
            y = y + 1;
        }
        assert(data@ =~~= fresh(n as int));
        let tmp = data.duplicate();
        World {
            data: data,
            tmp: tmp,
            settings: Settings {
                num_of_blocks: n,
                fps: 60,
                threshold: 50,
                selected_cell_type: CellType::Water,
                use_shift: false,
                speed: World::fps_to_speed(60),
                last_frame_time: 0,
            },
            rng: seeded(seed),
        }
    }

    /// A simulation like that of `new`, or `None` where a grid of this side
    /// cannot be allocated.
    pub fn try_new(num_of_blocks: usize, seed: u64) -> (w: Option<World>)
        ensures
            w is Some <==> fits(num_of_blocks),
            w matches Some(world) ==> {
                &&& world.wf()
                &&& world@ == fresh(num_of_blocks as int)
                &&& world.scratch() == fresh(num_of_blocks as int)
                &&& world.settings() == (Settings {
                    num_of_blocks: num_of_blocks,
                    fps: 60,
                    threshold: 50,
                    selected_cell_type: CellType::Water,
                    use_shift: false,
                    speed: interval_ms(60) as u128,
                    last_frame_time: 0,
                })
            },
    {
        assert(num_of_blocks * num_of_blocks <= 0xffff_ffff_ffff_ffff * 0xffff_ffff_ffff_ffff)
            by (nonlinear_arith)
            requires
                num_of_blocks <= 0xffff_ffff_ffff_ffff,
        ;
        let cells: u128 = (num_of_blocks as u128) * (num_of_blocks as u128);
        if cells > isize::MAX as u128 {
            assert(!fits(num_of_blocks)) by (nonlinear_arith)
                requires
                    num_of_blocks * num_of_blocks > isize::MAX,
            ;
            return None;
        }
        assert(cells * 32 == num_of_blocks * num_of_blocks * 32);
        if cells * 32 > isize::MAX as u128 {
            return None;
        }
        Some(World::new(num_of_blocks, seed))
    }

    /// Whether the outermost ring of the grid is dirt.
    pub fn has_border(&self) -> (yes: bool)
        requires
            self.wf(),
        ensures
            yes == self.bordered(),
    {
        let n: usize = self.settings.num_of_blocks;
        let mut i: usize = 0;
        while i < n
            invariant
                i <= n,
                n == self.settings.num_of_blocks,
                self.wf(),
                forall|r: int, c: int|
                    on_ring(n as int, r, c) && (((r == 0 || r == n - 1) && c < i) || ((c == 0 || c
                        == n - 1) && r < i)) ==> (#[trigger] self@[r][c]).cell_type
                        == CellType::Dirt,
            decreases n - i,
        {
            if self.data.kind(0, i) != CellType::Dirt || self.data.kind(n - 1, i)
                != CellType::Dirt || self.data.kind(i, 0) != CellType::Dirt || self.data.kind(
                i,
                n - 1,
            ) != CellType::Dirt {
                assert(on_ring(n as int, 0, i as int) && on_ring(n as int, n - 1, i as int)
                    && on_ring(n as int, i as int, 0) && on_ring(n as int, i as int, n - 1));
                return false;
            }
            i = i + 1;
        }
        true
    }

    /// The settings.
    #[verifier::when_used_as_spec(spec_settings)]
    pub fn settings(&self) -> (s: Settings)
        ensures
            s == self.settings(),
    {
        self.settings
    }

    /// The side length of the grid.
    pub fn dimensions(&self) -> (n: usize)
        ensures
            n == self.side(),
    {
        self.settings.num_of_blocks
    }

    /// Sets the ticks per second; `update_speed` makes them the interval.
    pub fn set_fps(&mut self, fps: i32)
        ensures
            final(self).settings() == (Settings { fps: fps, ..old(self).settings() }),
            final(self)@ == old(self)@,
            final(self).scratch() == old(self).scratch(),
    {
        self.settings.fps = fps;
    }

    /// Sets the chance of dirt, in hundredths.
    pub fn set_threshold(&mut self, threshold: u32)
        ensures
            final(self).settings() == (Settings { threshold: threshold, ..old(self).settings() }),
            final(self)@ == old(self)@,
            final(self).scratch() == old(self).scratch(),
    {
        self.settings.threshold = threshold;
    }

    /// Selects the material that `transform_cell` paints.
    pub fn select(&mut self, kind: CellType)
        ensures
            final(self).settings() == (Settings {
                selected_cell_type: kind,
                ..old(self).settings()
            }),
            final(self)@ == old(self)@,
            final(self).scratch() == old(self).scratch(),
    {
        self.settings.selected_cell_type = kind;
    }

    /// Flips `use_shift`.
    pub fn toggle_shift(&mut self)
        ensures
            final(self).settings() == (Settings {
                use_shift: !old(self).settings().use_shift,
                ..old(self).settings()
            }),
            final(self)@ == old(self)@,
            final(self).scratch() == old(self).scratch(),
    {
        self.settings.use_shift = !self.settings.use_shift;
    }

    /// The whole milliseconds between two ticks at `fps` ticks per second.
    pub fn fps_to_speed(fps: i32) -> (ms: u128)
        requires
            fps > 0,
        ensures
            ms == interval_ms(fps as int),
    {
        let nanos: u32 = 1_000_000_000u32 / (fps as u32);
        (nanos / 1_000_000u32) as u128
    }

    /// Sets the tick interval from `fps`.
    pub fn update_speed(&mut self)
        requires
            old(self).settings().fps > 0,
        ensures
            final(self).settings() == (Settings {
                speed: interval_ms(old(self).settings().fps as int) as u128,
                ..old(self).settings()
            }),
            final(self)@ == old(self)@,
            final(self).scratch() == old(self).scratch(),
    {
        self.settings.speed = World::fps_to_speed(self.settings.fps);
    }

    /// Whether `(x, y)` is a position inside the ring: one that may be
    /// painted.
    pub fn bounds_valid(&self, x: i64, y: i64) -> (ok: bool)
        ensures
            ok == interior(self.side() as int, y as int, x as int),
    {
        let n: i128 = self.settings.num_of_blocks as i128;
        0 < x && (x as i128) < n - 1 && 0 < y && (y as i128) < n - 1
    }

    /// A copy of the cell in column `x` of row `y`, or `None` outside the
    /// grid.
    pub fn cell_at(&self, x: i64, y: i64) -> (cell: Option<Cell>)
        requires
            self.wf(),
        ensures
            cell == if inside(self.side() as int, y as int, x as int) {
                Some(self@[y as int][x as int])
            } else {
                None
            },
    {
        let n: i128 = self.settings.num_of_blocks as i128;
        if 0 <= x && (x as i128) < n && 0 <= y && (y as i128) < n {
            Some(self.data.get(y as usize, x as usize))
        } else {
            None
        }
    }

    /// Puts `mass` of `kind` in column `x` of row `y`, whatever is there. A
    /// position on the ring or outside the grid is refused and nothing
    /// changes.
    pub fn fill(&mut self, x: i64, y: i64, kind: CellType, mass: u64) -> (done: Result<
        (),
        OutOfBounds,
    >)
        requires
            old(self).wf(),
        ensures
            final(self).wf(),
            old(self).bordered() ==> final(self).bordered(),
            final(self).settings() == old(self).settings(),
            final(self).scratch() == old(self).scratch(),
            done is Ok <==> interior(old(self).side() as int, y as int, x as int),
            final(self)@ == if interior(old(self).side() as int, y as int, x as int) {
                with_content(old(self)@, y as int, x as int, kind, mass)
            } else {
                old(self)@
            },
    {
        if !self.bounds_valid(x, y) {
            return Err(OutOfBounds);
        }
        self.data.set_content(y as usize, x as usize, kind, mass);
        Ok(())
    }

    /// Paints `kind` in column `x` of row `y`. A position on the ring or
    /// outside the grid is refused and nothing changes.
    pub fn place(&mut self, x: i64, y: i64, kind: CellType) -> (done: Result<(), OutOfBounds>)
        requires
            old(self).wf(),
        ensures
            final(self).wf(),
            old(self).bordered() ==> final(self).bordered(),
            final(self).settings() == old(self).settings(),
            final(self).scratch() == old(self).scratch(),
            done is Ok <==> interior(old(self).side() as int, y as int, x as int),
            final(self)@ == if interior(old(self).side() as int, y as int, x as int) {
                painted(old(self)@, y as int, x as int, kind)
            } else {
                old(self)@
            },
    {
        if !self.bounds_valid(x, y) {
            return Err(OutOfBounds);
        }
        let row: usize = y as usize;
        let col: usize = x as usize;
        if kind != CellType::Water {
            self.data.set_content(row, col, kind, 0);
        } else {
            let there = self.data.get(row, col);
            if there.cell_type == CellType::Empty {
                self.data.set_content(row, col, CellType::Water, DROPLET);
            } else if there.cell_type == CellType::Water {
                let more: u64 = if there.mass <= u64::MAX - POUR {
                    there.mass + POUR
                } else {
                    u64::MAX
                };
                self.data.set_mass(row, col, more);
            }
        }
        Ok(())
    }

    /// Paints the selected material in column `x` of row `y`.
    pub fn transform_cell(&mut self, x: i64, y: i64) -> (done: Result<(), OutOfBounds>)
        requires
            old(self).wf(),
        ensures
            final(self).wf(),
            old(self).bordered() ==> final(self).bordered(),
            final(self).settings() == old(self).settings(),
            final(self).scratch() == old(self).scratch(),
            done is Ok <==> interior(old(self).side() as int, y as int, x as int),
            final(self)@ == if interior(old(self).side() as int, y as int, x as int) {
                painted(old(self)@, y as int, x as int, old(self).settings().selected_cell_type)
            } else {
                old(self)@
            },
    {
        let kind = self.settings.selected_cell_type;
        self.place(x, y, kind)
    }

    /// Turns the outermost ring to dirt and leaves everything else, the
    /// masses on the ring too, as it is.
    pub fn add_border(&mut self)
        requires
            old(self).wf(),
        ensures
            final(self).wf(),
            final(self).bordered(),
            final(self).settings() == old(self).settings(),
            final(self).scratch() == old(self).scratch(),
            final(self)@ == framed(old(self)@),
    {
        let n: usize = self.settings.num_of_blocks;
        let ghost start = self.data@;
        let mut i: usize = 0;
        while i < n
            invariant
                i <= n,
                n == self.settings.num_of_blocks,
                square(start, n as int),
                square(self.data@, n as int),
                self.settings() == old(self).settings(),
                self.scratch() == old(self).scratch(),
                forall|r: int, c: int|
                    inside(n as int, r, c) ==> (#[trigger] self.data@[r][c]) == if ((r == 0 || r
                        == n - 1) && c < i) || ((c == 0 || c == n - 1) && r < i) {
                        Cell { cell_type: CellType::Dirt, ..start[r][c] }
                    } else {
                        start[r][c]
                    },
            decreases n - i,
        {
            self.data.set_kind(0, i, CellType::Dirt);
            self.data.set_kind(n - 1, i, CellType::Dirt);
            self.data.set_kind(i, 0, CellType::Dirt);
            self.data.set_kind(i, n - 1, CellType::Dirt);
            i = i + 1;
        }
        assert(self.data@ =~~= framed(start));
    }

    /// Empties every cell and restores the ring of dirt.
    pub fn clear(&mut self)
        requires
            old(self).wf(),
        ensures
            final(self).wf(),
            final(self).bordered(),
            final(self).settings() == old(self).settings(),
            final(self).scratch() == old(self).scratch(),
            final(self)@ == cleared(old(self)@),
    {
        let n: usize = self.settings.num_of_blocks;
        let ghost start = self.data@;
        let mut y: usize = 0;
        while y < n
            invariant
                y <= n,
                n == self.settings.num_of_blocks,
                square(start, n as int),
                square(self.data@, n as int),
                self.settings() == old(self).settings(),
                self.scratch() == old(self).scratch(),
                forall|r: int, c: int|
                    inside(n as int, r, c) ==> (#[trigger] self.data@[r][c]) == if r < y {
                        Cell { cell_type: CellType::Empty, mass: 0, ..start[r][c] }
                    } else {
                        start[r][c]
                    },
            decreases n - y,
        {
            let mut x: usize = 0;
            while x < n
                invariant
                    y < n,
                    x <= n,
                    n == self.settings.num_of_blocks,
                    square(start, n as int),
                    square(self.data@, n as int),
                    self.settings() == old(self).settings(),
                    self.scratch() == old(self).scratch(),
                self.scratch() == old(self).scratch(),
                    forall|r: int, c: int|
                        inside(n as int, r, c) ==> (#[trigger] self.data@[r][c]) == if before(
                            r,
                            c,
                            y as int,
                            x as int,
                        ) {
                            Cell { cell_type: CellType::Empty, mass: 0, ..start[r][c] }
                        } else {
                            start[r][c]
                        },
                decreases n - x,
            {
                self.data.set_content(y, x, CellType::Empty, 0);
                x = x + 1;
            }
            y = y + 1;
        }
        self.add_border();
        assert(self.data@ =~~= cleared(start));
    }

    /// Makes each cell dirt with a chance of `threshold` in a hundred (a
    /// threshold above a hundred counts as a hundred) and vacuum otherwise,
    /// each cell on a draw of its own, and restores the ring of dirt. Masses
    /// stay as they are.
    pub fn rand_generate(&mut self)
        requires
            old(self).wf(),
        ensures
            final(self).wf(),
            final(self).bordered(),
            final(self).settings() == old(self).settings(),
            final(self).scratch() == old(self).scratch(),
            scattered(old(self)@, final(self)@, old(self).settings().threshold),
    {
        let n: usize = self.settings.num_of_blocks;
        let chance: u32 = if self.settings.threshold > 100 {
            100
        } else {
            self.settings.threshold
        };
        let ghost start = self.data@;
        let mut y: usize = 0;
        while y < n
            invariant
                y <= n,
                n == self.settings.num_of_blocks,
                chance <= 100,
                chance == 100 <==> old(self).settings().threshold >= 100,
                chance == 0 <==> old(self).settings().threshold == 0,
                square(start, n as int),
                square(self.data@, n as int),
                self.settings() == old(self).settings(),
                self.scratch() == old(self).scratch(),
                forall|r: int, c: int|
                    inside(n as int, r, c) ==> (#[trigger] self.data@[r][c]) == if r < y {
                        Cell { cell_type: self.data@[r][c].cell_type, ..start[r][c] }
                    } else {
                        start[r][c]
                    },
                forall|r: int, c: int|
                    inside(n as int, r, c) && r < y ==> {
                        &&& (#[trigger] self.data@[r][c]).cell_type == CellType::Dirt
                            || self.data@[r][c].cell_type == CellType::Empty
                        &&& chance == 100 ==> self.data@[r][c].cell_type == CellType::Dirt
                        &&& chance == 0 ==> self.data@[r][c].cell_type == CellType::Empty
                    },
            decreases n - y,
        {
            let mut x: usize = 0;
            while x < n
                invariant
                    y < n,
                    x <= n,
                    n == self.settings.num_of_blocks,
                    chance <= 100,
                    square(start, n as int),
                    square(self.data@, n as int),
                    self.settings() == old(self).settings(),
                    self.scratch() == old(self).scratch(),
                self.scratch() == old(self).scratch(),
                    forall|r: int, c: int|
                        inside(n as int, r, c) ==> (#[trigger] self.data@[r][c]) == if before(
                            r,
                            c,
                            y as int,
                            x as int,
                        ) {
                            Cell { cell_type: self.data@[r][c].cell_type, ..start[r][c] }
                        } else {
                            start[r][c]
                        },
                    forall|r: int, c: int|
                        inside(n as int, r, c) && before(r, c, y as int, x as int) ==> {
                            &&& (#[trigger] self.data@[r][c]).cell_type == CellType::Dirt
                                || self.data@[r][c].cell_type == CellType::Empty
                            &&& chance == 100 ==> self.data@[r][c].cell_type == CellType::Dirt
                            &&& chance == 0 ==> self.data@[r][c].cell_type == CellType::Empty
                        },
                decreases n - x,
            {
                let hit: bool = ratio(&mut self.rng, chance, 100);
                self.data.set_kind(y, x, terrain(hit));
                x = x + 1;
            }
            y = y + 1;
        }
        self.add_border();
    }

    /// One relaxation of dirt and vacuum by the majority rule.
    pub fn smooth(&mut self)
        requires
            old(self).wf(),
        ensures
            final(self).wf(),
            old(self).bordered() ==> final(self).bordered(),
            final(self).settings() == old(self).settings(),
            final(self).scratch() == old(self)@,
            final(self)@ == smooth_pass(old(self)@),
    {
        let n: usize = self.settings.num_of_blocks;
        proof {
            assert(n < usize::MAX) by (nonlinear_arith)
                requires
                    n * n * 32 <= isize::MAX,
                    isize::MAX < usize::MAX,
            ;
            if old(self).bordered() {
                smoothing_keeps_border(self.data@);
            }
        }
        self.tmp = self.data.duplicate();
        smooth_sweep(&self.data, &mut self.tmp);
        core::mem::swap(&mut self.data, &mut self.tmp);
    }

    /// The sand rule over the whole grid; gives the coins that decided.
    fn sand_phase(&mut self) -> (coins: Ghost<Seq<Seq<bool>>>)
        requires
            old(self).wf(),
            old(self).bordered(),
        ensures
            final(self).wf(),
            final(self).bordered(),
            final(self).settings() == old(self).settings(),
            final(self).scratch() == old(self)@,
            coin_sheet(coins@, old(self).side() as int),
            final(self)@ == sand_pass(old(self)@, coins@),
    {
        self.tmp = self.data.duplicate();
        let coins = sand_sweep(&self.data, &mut self.tmp, &mut self.rng);
        core::mem::swap(&mut self.data, &mut self.tmp);
        coins
    }

    /// The sand rule over the whole grid. Each grain that can slide either
    /// way tosses a coin of the generator.
    pub fn update_sand(&mut self)
        requires
            old(self).wf(),
            old(self).bordered(),
        ensures
            final(self).wf(),
            final(self).bordered(),
            final(self).settings() == old(self).settings(),
            final(self).scratch() == old(self)@,
            exists|coins: Seq<Seq<bool>>|
                coin_sheet(coins, old(self).side() as int) && final(self)@ == #[trigger] sand_pass(
                    old(self)@,
                    coins,
                ),
            total_mass(final(self)@) <= total_mass(old(self)@),
    {
        let coins = self.sand_phase();
        proof {
            sand_creates_no_mass(old(self)@, old(self).side() as int, coins@);
        }
        assert(coin_sheet(coins@, old(self).side() as int) && self@ == sand_pass(
            old(self)@,
            coins@,
        ));
    }

    /// The water rule over the whole grid.
    pub fn update_water(&mut self)
        requires
            old(self).wf(),
            old(self).bordered(),
        ensures
            final(self).wf(),
            final(self).bordered(),
            final(self).settings() == old(self).settings(),
            final(self).scratch() == old(self)@,
            final(self)@ == water_pass(old(self)@),
            total_mass(final(self)@) <= total_mass(old(self)@),
            calm(old(self)@) && total_mass(old(self)@) <= u64::MAX ==> total_mass(final(self)@)
                == total_mass(old(self)@),
    {
        proof {
            water_creates_no_mass(self@, self.side() as int);
            if calm(self@) && total_mass(self@) <= u64::MAX {
                water_keeps_mass(self@, self.side() as int);
            }
        }
        self.tmp = self.data.duplicate();
        water_sweep(&self.data, &mut self.tmp);
        core::mem::swap(&mut self.data, &mut self.tmp);
    }

    /// The fire rule over the whole grid.
    pub fn update_fire(&mut self)
        requires
            old(self).wf(),
            old(self).bordered(),
        ensures
            final(self).wf(),
            final(self).bordered(),
            final(self).settings() == old(self).settings(),
            final(self).scratch() == old(self)@,
            final(self)@ == fire_pass(old(self)@),
    {
        self.tmp = self.data.duplicate();
        gather::<Fire>(&self.data, &mut self.tmp);
        core::mem::swap(&mut self.data, &mut self.tmp);
    }

    /// The smoke rule over the whole grid.
    pub fn update_smoke(&mut self)
        requires
            old(self).wf(),
            old(self).bordered(),
        ensures
            final(self).wf(),
            final(self).bordered(),
            final(self).settings() == old(self).settings(),
            final(self).scratch() == old(self)@,
            final(self)@ == smoke_pass(old(self)@),
    {
        self.tmp = self.data.duplicate();
        gather::<Smoke>(&self.data, &mut self.tmp);
        core::mem::swap(&mut self.data, &mut self.tmp);
    }

    /// The wood rule over the whole grid.
    pub fn update_wood(&mut self)
        requires
            old(self).wf(),
            old(self).bordered(),
        ensures
            final(self).wf(),
            final(self).bordered(),
            final(self).settings() == old(self).settings(),
            final(self).scratch() == old(self)@,
            final(self)@ == wood_pass(old(self)@),
            total_mass(final(self)@) == total_mass(old(self)@),
    {
        proof {
            wood_moves_no_mass(self@);
        }
        self.tmp = self.data.duplicate();
        gather::<Wood>(&self.data, &mut self.tmp);
        core::mem::swap(&mut self.data, &mut self.tmp);
    }

    /// One tick at the time `now`, in milliseconds on the caller's clock:
    /// nothing unless a tick is due, else the five rules in their order,
    /// which leaves the grid from before the last of them in the scratch
    /// buffer.
    pub fn update(&mut self, now: u128)
        requires
            old(self).wf(),
            old(self).bordered(),
        ensures
            final(self).wf(),
            final(self).bordered(),
            !old(self).due(now) ==> final(self)@ == old(self)@,
            !old(self).due(now) ==> final(self).scratch() == old(self).scratch(),
            !old(self).due(now) ==> final(self).settings() == old(self).settings(),
            old(self).due(now) ==> final(self).settings() == (Settings {
                last_frame_time: now,
                ..old(self).settings()
            }),
            old(self).due(now) ==> exists|coins: Seq<Seq<bool>>|
                {
                    &&& coin_sheet(coins, old(self).side() as int)
                    &&& final(self)@ == #[trigger] ticked(old(self)@, coins)
                    &&& final(self).scratch() == before_wood(old(self)@, coins)
                },
    {
        let passed: u128 = if now >= self.settings.last_frame_time {
            now - self.settings.last_frame_time
        } else {
            0
        };
        if passed < self.settings.speed {
            return ;
        }
        self.settings.last_frame_time = now;
        let coins = self.sand_phase();
        self.update_water();
        self.update_fire();
        self.update_smoke();
        self.update_wood();
        assert(coin_sheet(coins@, old(self).side() as int) && self@ == ticked(old(self)@, coins@)
            && self.scratch() == before_wood(old(self)@, coins@));
    }
}

} // verus!
