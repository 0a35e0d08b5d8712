use falling_sand::cell::CellType;
use falling_sand::fire::{DARK_SMOKE_MASS, SMOKE_MASS};
use falling_sand::smoke::SMOKE_DECAY;
use falling_sand::world::World;

fn bordered(n: usize) -> World {
    let mut world = World::new(n, 5);
    world.add_border();
    world
}

fn cell(world: &World, x: i64, y: i64) -> (CellType, u64) {
    let c = world.cell_at(x, y).unwrap();
    (c.cell_type, c.mass)
}

#[test]
fn smoke_constants_are_in_thousandths() {
    assert_eq!(SMOKE_MASS, 1_000);
    assert_eq!(DARK_SMOKE_MASS, 2_000);
    assert_eq!(SMOKE_DECAY, 10);
}

#[test]
fn wood_falls_one_row_through_vacuum() {
    let mut world = bordered(6);
    world.place(2, 1, CellType::Wood).unwrap();
    world.update_wood();
    assert_eq!(cell(&world, 2, 1), (CellType::Empty, 0));
    assert_eq!(cell(&world, 2, 2), (CellType::Wood, 0));
    world.update_wood();
    assert_eq!(cell(&world, 2, 3), (CellType::Wood, 0));
}

#[test]
fn wood_rests_on_anything_but_vacuum() {
    for under in [CellType::Water, CellType::Dirt, CellType::Sand, CellType::Wood] {
        let mut world = bordered(5);
        world.place(2, 2, CellType::Wood).unwrap();
        world.fill(2, 3, under, 0).unwrap();
        world.update_wood();
        assert_eq!(cell(&world, 2, 2).0, CellType::Wood);
        assert_eq!(cell(&world, 2, 3).0, under);
    }
}

#[test]
fn a_wood_column_falls_from_its_foot() {
    let mut world = bordered(7);
    world.place(3, 1, CellType::Wood).unwrap();
    world.place(3, 2, CellType::Wood).unwrap();
    world.update_wood();
    assert_eq!(cell(&world, 3, 1).0, CellType::Wood);
    assert_eq!(cell(&world, 3, 2).0, CellType::Empty);
    assert_eq!(cell(&world, 3, 3).0, CellType::Wood);
}

#[test]
fn falling_wood_moves_its_material_only() {
    let mut world = bordered(5);
    world.fill(2, 1, CellType::Wood, 40).unwrap();
    world.fill(2, 2, CellType::Empty, 7).unwrap();
    world.update_wood();
    assert_eq!(cell(&world, 2, 1), (CellType::Empty, 40));
    assert_eq!(cell(&world, 2, 2), (CellType::Wood, 7));
}

#[test]
fn fire_drips_through_vacuum_as_a_fresh_flame() {
    for kind in [CellType::FireNormal, CellType::FireBurn] {
        let mut world = bordered(5);
        world.place(2, 1, kind).unwrap();
        world.update_fire();
        assert_eq!(cell(&world, 2, 1), (CellType::Empty, 0));
        assert_eq!(cell(&world, 2, 2), (CellType::FireNormal, 0));
    }
}

#[test]
fn a_fresh_flame_that_cannot_fall_turns_to_smoke() {
    let mut world = bordered(5);
    world.place(2, 3, CellType::FireNormal).unwrap();
    world.update_fire();
    assert_eq!(cell(&world, 2, 3), (CellType::Smoke, 1_000));
}

#[test]
fn burning_fuel_that_cannot_fall_turns_to_dark_smoke() {
    let mut world = bordered(5);
    world.place(2, 3, CellType::FireBurn).unwrap();
    world.update_fire();
    assert_eq!(cell(&world, 2, 3), (CellType::DarkSmoke, 2_000));
}

fn flame_in_wood() -> World {
    let mut world = bordered(7);
    world.place(3, 3, CellType::FireNormal).unwrap();
    world.place(3, 2, CellType::Wood).unwrap();
    world.place(3, 4, CellType::Wood).unwrap();
    world.place(2, 3, CellType::Wood).unwrap();
    world.place(4, 3, CellType::Wood).unwrap();
    world.place(2, 2, CellType::Wood).unwrap();
    world
}

#[test]
fn a_flame_surrounded_by_wood_lights_all_four_sides() {
    let mut world = flame_in_wood();
    world.update_fire();
    assert_eq!(cell(&world, 3, 3), (CellType::Smoke, 1_000));
    for (x, y) in [(3, 2), (3, 4), (2, 3), (4, 3)] {
        assert_eq!(cell(&world, x, y), (CellType::FireBurn, 0));
    }
    // the corner does not share a side with the flame
    assert_eq!(cell(&world, 2, 2), (CellType::Wood, 0));
}

#[test]
fn a_flame_surrounded_by_wood_lights_it_within_the_tick() {
    let mut world = flame_in_wood();
    world.update(16);
    assert_eq!(cell(&world, 3, 3), (CellType::Smoke, 990));
    for (x, y) in [(3, 2), (3, 4), (2, 3), (4, 3)] {
        assert_eq!(cell(&world, x, y).0, CellType::FireBurn);
    }
}

#[test]
fn a_dripping_flame_lights_nothing() {
    let mut world = bordered(7);
    world.place(3, 2, CellType::FireNormal).unwrap();
    world.place(2, 2, CellType::Wood).unwrap();
    world.place(4, 2, CellType::Wood).unwrap();
    world.place(2, 3, CellType::Dirt).unwrap();
    world.place(4, 3, CellType::Dirt).unwrap();
    world.update_fire();
    assert_eq!(cell(&world, 3, 3).0, CellType::FireNormal);
    assert_eq!(cell(&world, 2, 2).0, CellType::Wood);
    assert_eq!(cell(&world, 4, 2).0, CellType::Wood);
}

#[test]
fn wood_between_two_dying_flames_burns() {
    let mut world = bordered(7);
    world.place(2, 5, CellType::FireNormal).unwrap();
    world.place(3, 5, CellType::Wood).unwrap();
    world.place(4, 5, CellType::FireBurn).unwrap();
    world.update_fire();
    assert_eq!(cell(&world, 2, 5), (CellType::Smoke, 1_000));
    assert_eq!(cell(&world, 3, 5), (CellType::FireBurn, 0));
    assert_eq!(cell(&world, 4, 5), (CellType::DarkSmoke, 2_000));
}

#[test]
fn smoke_rises_through_vacuum_and_thins() {
    let mut world = bordered(5);
    world.fill(2, 2, CellType::Smoke, 500).unwrap();
    world.update_smoke();
    assert_eq!(cell(&world, 2, 2), (CellType::Empty, 0));
    assert_eq!(cell(&world, 2, 1), (CellType::Smoke, 490));
}

#[test]
fn dark_smoke_rises_as_dark_smoke() {
    let mut world = bordered(5);
    world.fill(2, 3, CellType::DarkSmoke, 2_000).unwrap();
    world.update_smoke();
    assert_eq!(cell(&world, 2, 3), (CellType::Empty, 0));
    assert_eq!(cell(&world, 2, 2), (CellType::DarkSmoke, 1_990));
}

#[test]
fn smoke_under_a_ceiling_thins_in_place() {
    let mut world = bordered(5);
    world.fill(2, 1, CellType::Smoke, 500).unwrap();
    world.update_smoke();
    assert_eq!(cell(&world, 2, 1), (CellType::Smoke, 490));
    world.update_smoke();
    assert_eq!(cell(&world, 2, 1), (CellType::Smoke, 480));
}

#[test]
fn smoke_with_nothing_left_is_gone() {
    for mass in [0u64, 1, 10] {
        let mut world = bordered(5);
        world.fill(2, 1, CellType::Smoke, mass).unwrap();
        world.fill(2, 3, CellType::DarkSmoke, mass).unwrap();
        world.update_smoke();
        assert_eq!(cell(&world, 2, 1), (CellType::Empty, 0));
        assert_eq!(cell(&world, 2, 3), (CellType::Empty, 0));
        assert_eq!(cell(&world, 2, 2), (CellType::Empty, 0));
    }
}

#[test]
fn the_last_wisp_of_smoke_survives_one_more_tick() {
    let mut world = bordered(5);
    world.fill(2, 1, CellType::Smoke, 11).unwrap();
    world.update_smoke();
    assert_eq!(cell(&world, 2, 1), (CellType::Smoke, 1));
    world.update_smoke();
    assert_eq!(cell(&world, 2, 1), (CellType::Empty, 0));
}

#[test]
fn smoke_lives_a_hundred_ticks_from_a_fresh_flame() {
    let mut world = bordered(5);
    world.fill(2, 1, CellType::Smoke, SMOKE_MASS).unwrap();
    for _ in 0..99 {
        world.update_smoke();
    }
    assert_eq!(cell(&world, 2, 1), (CellType::Smoke, 10));
    world.update_smoke();
    assert_eq!(cell(&world, 2, 1), (CellType::Empty, 0));
}

#[test]
fn stacked_smoke_rises_from_the_top() {
    let mut world = bordered(6);
    world.fill(2, 3, CellType::Smoke, 300).unwrap();
    world.fill(2, 4, CellType::Smoke, 700).unwrap();
    world.update_smoke();
    assert_eq!(cell(&world, 2, 2), (CellType::Smoke, 290));
    assert_eq!(cell(&world, 2, 3), (CellType::Empty, 0));
    assert_eq!(cell(&world, 2, 4), (CellType::Smoke, 690));
}
