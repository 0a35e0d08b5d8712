use falling_sand::cell::{Cell, CellType};
use falling_sand::world::World;

fn bordered(n: usize, seed: u64) -> World {
    let mut world = World::new(n, seed);
    world.add_border();
    world
}

fn cell(world: &World, x: i64, y: i64) -> (CellType, u64) {
    let c = world.cell_at(x, y).unwrap();
    (c.cell_type, c.mass)
}

fn snapshot(world: &World) -> Vec<Cell> {
    let n = world.dimensions() as i64;
    let mut cells = Vec::new();
    for y in 0..n {
        for x in 0..n {
            cells.push(world.cell_at(x, y).unwrap());
        }
    }
    cells
}

#[test]
fn no_tick_before_the_interval_has_passed() {
    let mut world = bordered(5, 1);
    world.place(2, 1, CellType::Sand).unwrap();
    let before = snapshot(&world);
    world.update(15);
    assert_eq!(snapshot(&world), before);
    assert_eq!(world.settings().last_frame_time, 0);
}

#[test]
fn a_tick_once_the_interval_has_passed() {
    let mut world = bordered(5, 1);
    world.place(2, 1, CellType::Sand).unwrap();
    world.update(16);
    assert_eq!(cell(&world, 2, 1), (CellType::Empty, 0));
    assert_eq!(cell(&world, 2, 2), (CellType::Sand, 0));
    assert_eq!(world.settings().last_frame_time, 16);
}

#[test]
fn the_interval_counts_from_the_last_tick() {
    let mut world = bordered(6, 1);
    world.place(2, 1, CellType::Sand).unwrap();
    world.update(20);
    assert_eq!(cell(&world, 2, 2).0, CellType::Sand);
    world.update(35);
    assert_eq!(cell(&world, 2, 2).0, CellType::Sand);
    assert_eq!(world.settings().last_frame_time, 20);
    world.update(36);
    assert_eq!(cell(&world, 2, 3).0, CellType::Sand);
    assert_eq!(world.settings().last_frame_time, 36);
}

#[test]
fn a_clock_that_runs_backwards_ticks_nothing() {
    let mut world = bordered(6, 1);
    world.place(2, 1, CellType::Sand).unwrap();
    world.update(100);
    let before = snapshot(&world);
    world.update(5);
    assert_eq!(snapshot(&world), before);
    assert_eq!(world.settings().last_frame_time, 100);
}

#[test]
fn an_interval_of_nothing_ticks_every_time() {
    let mut world = bordered(6, 1);
    world.set_fps(2_000);
    world.update_speed();
    assert_eq!(world.settings().speed, 0);
    world.place(2, 1, CellType::Sand).unwrap();
    world.update(0);
    world.update(0);
    assert_eq!(cell(&world, 2, 3).0, CellType::Sand);
}

#[test]
fn a_tick_changes_no_setting_but_the_clock() {
    let mut world = bordered(6, 1);
    world.set_threshold(30);
    world.select(CellType::Sand);
    let before = world.settings();
    world.update(1_000);
    let after = world.settings();
    assert_eq!(after.last_frame_time, 1_000);
    assert_eq!(after.num_of_blocks, before.num_of_blocks);
    assert_eq!(after.fps, before.fps);
    assert_eq!(after.threshold, before.threshold);
    assert_eq!(after.selected_cell_type, before.selected_cell_type);
    assert_eq!(after.use_shift, before.use_shift);
    assert_eq!(after.speed, before.speed);
}

#[test]
fn rules_run_in_order_sand_water_fire_smoke_wood() {
    let mut world = bordered(7, 1);
    // fire over vacuum drips in the fire pass; the smoke it would leave
    // next tick does not exist yet when the smoke pass runs
    world.place(2, 4, CellType::FireNormal).unwrap();
    // wood on sand: the sand falls first, the wood follows in the same tick
    world.place(4, 2, CellType::Wood).unwrap();
    world.place(4, 3, CellType::Sand).unwrap();
    world.update(16);
    assert_eq!(cell(&world, 2, 5).0, CellType::FireNormal);
    assert_eq!(cell(&world, 4, 4).0, CellType::Sand);
    assert_eq!(cell(&world, 4, 3).0, CellType::Wood);
    assert_eq!(cell(&world, 4, 2).0, CellType::Empty);
}

#[test]
fn smoke_of_a_burnt_out_flame_thins_in_the_same_tick() {
    let mut world = bordered(5, 1);
    world.place(2, 3, CellType::FireBurn).unwrap();
    world.update(16);
    // dark smoke of 2000 rises at once, ten thousandths lighter
    assert_eq!(cell(&world, 2, 3), (CellType::Empty, 0));
    assert_eq!(cell(&world, 2, 2), (CellType::DarkSmoke, 1_990));
}

#[test]
fn the_border_outlasts_many_ticks() {
    let mut world = World::new(20, 4242);
    world.set_threshold(35);
    world.rand_generate();
    world.smooth();
    let kinds = [
        CellType::Water,
        CellType::Sand,
        CellType::Wood,
        CellType::FireNormal,
        CellType::FireBurn,
        CellType::Smoke,
        CellType::DarkSmoke,
    ];
    for y in 1..19i64 {
        for x in 1..19i64 {
            let pick = ((x * 7 + y * 13) % 11) as usize;
            if pick < kinds.len() {
                let mass = if pick == 0 { 9_000 + (x * 500) as u64 } else { 800 };
                world.fill(x, y, kinds[pick], mass).unwrap();
            }
        }
    }
    assert!(world.has_border());
    for tick in 1..=60u128 {
        world.update(tick * 16);
        assert!(world.has_border());
        for i in 0..20i64 {
            for (x, y) in [(i, 0), (i, 19), (0, i), (19, i)] {
                assert_eq!(cell(&world, x, y), (CellType::Dirt, 0));
                let c = world.cell_at(x, y).unwrap();
                assert_eq!((c.x, c.y), (x as usize, y as usize));
            }
        }
    }
}

#[test]
fn ticks_are_reproducible_for_a_seed() {
    let mut a = bordered(14, 31);
    let mut b = bordered(14, 31);
    for world in [&mut a, &mut b] {
        for x in 2..12i64 {
            world.place(x, 2, CellType::Sand).unwrap();
            world.place(x, 3, CellType::Sand).unwrap();
            world.fill(x, 6, CellType::Water, 10_000).unwrap();
        }
        world.place(6, 9, CellType::Wood).unwrap();
        world.place(7, 9, CellType::FireNormal).unwrap();
    }
    for tick in 1..=40u128 {
        a.update(tick * 16);
        b.update(tick * 16);
        assert_eq!(snapshot(&a), snapshot(&b));
    }
}
