use falling_sand::cell::{Cell, CellType};
use falling_sand::world::{OutOfBounds, World};

fn bordered(n: usize) -> World {
    let mut world = World::new(n, 11);
    world.add_border();
    world
}

fn cell(world: &World, x: i64, y: i64) -> (CellType, u64) {
    let c = world.cell_at(x, y).unwrap();
    (c.cell_type, c.mass)
}

#[test]
fn water_on_vacuum_leaves_a_droplet() {
    let mut world = bordered(5);
    assert_eq!(world.place(2, 2, CellType::Water), Ok(()));
    assert_eq!(cell(&world, 2, 2), (CellType::Water, 1_000));
}

#[test]
fn water_on_water_adds_two_units() {
    let mut world = bordered(5);
    world.place(2, 2, CellType::Water).unwrap();
    world.place(2, 2, CellType::Water).unwrap();
    assert_eq!(cell(&world, 2, 2), (CellType::Water, 3_000));
    world.place(2, 2, CellType::Water).unwrap();
    assert_eq!(cell(&world, 2, 2), (CellType::Water, 5_000));
}

#[test]
fn water_on_dirt_changes_nothing() {
    let mut world = bordered(5);
    world.place(2, 2, CellType::Dirt).unwrap();
    assert_eq!(world.place(2, 2, CellType::Water), Ok(()));
    assert_eq!(cell(&world, 2, 2), (CellType::Dirt, 0));
}

#[test]
fn water_on_any_other_material_changes_nothing() {
    for kind in [
        CellType::Sand,
        CellType::Wood,
        CellType::FireNormal,
        CellType::FireBurn,
        CellType::Smoke,
        CellType::DarkSmoke,
    ] {
        let mut world = bordered(5);
        world.fill(2, 2, kind, 77).unwrap();
        world.place(2, 2, CellType::Water).unwrap();
        assert_eq!(cell(&world, 2, 2), (kind, 77));
    }
}

#[test]
fn sand_overwrites_anything_and_leaves_no_mass() {
    let mut world = bordered(5);
    world.fill(2, 2, CellType::Water, 9_000).unwrap();
    world.place(2, 2, CellType::Sand).unwrap();
    assert_eq!(cell(&world, 2, 2), (CellType::Sand, 0));
    world.place(1, 1, CellType::Dirt).unwrap();
    world.place(1, 1, CellType::Sand).unwrap();
    assert_eq!(cell(&world, 1, 1), (CellType::Sand, 0));
}

#[test]
fn vacuum_erases_water() {
    let mut world = bordered(5);
    world.fill(2, 2, CellType::Water, 9_000).unwrap();
    world.place(2, 2, CellType::Empty).unwrap();
    assert_eq!(cell(&world, 2, 2), (CellType::Empty, 0));
}

#[test]
fn painting_water_holds_at_the_largest_mass() {
    let mut world = bordered(5);
    world.fill(2, 2, CellType::Water, u64::MAX - 1_000).unwrap();
    world.place(2, 2, CellType::Water).unwrap();
    assert_eq!(cell(&world, 2, 2), (CellType::Water, u64::MAX));
}

#[test]
fn painting_keeps_the_position_tags() {
    let mut world = bordered(6);
    world.place(4, 2, CellType::Wood).unwrap();
    assert_eq!(
        world.cell_at(4, 2),
        Some(Cell { x: 4, y: 2, cell_type: CellType::Wood, mass: 0 })
    );
}

#[test]
fn painting_the_ring_is_refused() {
    let mut world = bordered(5);
    for (x, y) in [(0, 0), (0, 2), (2, 0), (4, 2), (2, 4), (4, 4)] {
        assert_eq!(world.place(x, y, CellType::Sand), Err(OutOfBounds));
        assert_eq!(world.place(x, y, CellType::Water), Err(OutOfBounds));
        assert_eq!(world.fill(x, y, CellType::Water, 5), Err(OutOfBounds));
        assert_eq!(cell(&world, x, y), (CellType::Dirt, 0));
    }
    assert!(world.has_border());
}

#[test]
fn painting_outside_the_grid_is_refused() {
    let mut world = bordered(5);
    for (x, y) in [(-1, 2), (2, -1), (5, 2), (2, 5), (i64::MAX, 2), (2, i64::MIN)] {
        assert_eq!(world.place(x, y, CellType::Sand), Err(OutOfBounds));
    }
    for y in 1..4i64 {
        for x in 1..4i64 {
            assert_eq!(cell(&world, x, y), (CellType::Empty, 0));
        }
    }
}

#[test]
fn painting_touches_one_cell_only() {
    let mut world = bordered(5);
    world.place(2, 2, CellType::Wood).unwrap();
    for y in 1..4i64 {
        for x in 1..4i64 {
            if (x, y) != (2, 2) {
                assert_eq!(cell(&world, x, y), (CellType::Empty, 0));
            }
        }
    }
}

#[test]
fn transform_cell_paints_the_selected_material() {
    let mut world = bordered(5);
    assert_eq!(world.transform_cell(2, 2), Ok(()));
    assert_eq!(cell(&world, 2, 2), (CellType::Water, 1_000));
    world.select(CellType::FireNormal);
    assert_eq!(world.transform_cell(3, 3), Ok(()));
    assert_eq!(cell(&world, 3, 3), (CellType::FireNormal, 0));
    assert_eq!(world.transform_cell(0, 3), Err(OutOfBounds));
}

#[test]
fn fill_sets_material_and_mass() {
    let mut world = bordered(5);
    assert_eq!(world.fill(1, 3, CellType::DarkSmoke, 1_500), Ok(()));
    assert_eq!(
        world.cell_at(1, 3),
        Some(Cell { x: 1, y: 3, cell_type: CellType::DarkSmoke, mass: 1_500 })
    );
}
