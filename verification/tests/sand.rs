use falling_sand::cell::CellType;
use falling_sand::world::World;

fn bordered(n: usize, seed: u64) -> World {
    let mut world = World::new(n, seed);
    world.add_border();
    world
}

fn cell(world: &World, x: i64, y: i64) -> (CellType, u64) {
    let c = world.cell_at(x, y).unwrap();
    (c.cell_type, c.mass)
}

fn count(world: &World, kind: CellType) -> usize {
    let n = world.dimensions() as i64;
    let mut found = 0;
    for y in 0..n {
        for x in 0..n {
            if world.cell_at(x, y).unwrap().cell_type == kind {
                found += 1;
            }
        }
    }
    found
}

#[test]
fn sand_falls_through_vacuum() {
    let mut world = bordered(5, 1);
    world.place(2, 1, CellType::Sand).unwrap();
    world.update_sand();
    assert_eq!(cell(&world, 2, 1), (CellType::Empty, 0));
    assert_eq!(cell(&world, 2, 2), (CellType::Sand, 0));
    world.update_sand();
    assert_eq!(cell(&world, 2, 2), (CellType::Empty, 0));
    assert_eq!(cell(&world, 2, 3), (CellType::Sand, 0));
}

#[test]
fn sand_changes_places_with_the_water_under_it() {
    let mut world = bordered(5, 1);
    world.place(2, 1, CellType::Sand).unwrap();
    world.fill(2, 2, CellType::Water, 4_000).unwrap();
    world.update_sand();
    assert_eq!(cell(&world, 2, 1), (CellType::Water, 4_000));
    assert_eq!(cell(&world, 2, 2), (CellType::Sand, 0));
}

#[test]
fn sand_on_the_floor_with_walls_stays() {
    let mut world = bordered(5, 1);
    world.place(2, 3, CellType::Sand).unwrap();
    world.update_sand();
    assert_eq!(cell(&world, 2, 3), (CellType::Sand, 0));
    assert_eq!(count(&world, CellType::Sand), 1);
}

#[test]
fn sand_with_nothing_open_below_stays() {
    let mut world = bordered(5, 1);
    world.place(2, 2, CellType::Sand).unwrap();
    world.place(1, 3, CellType::Dirt).unwrap();
    world.place(2, 3, CellType::Dirt).unwrap();
    world.place(3, 3, CellType::Wood).unwrap();
    world.update_sand();
    assert_eq!(cell(&world, 2, 2), (CellType::Sand, 0));
    assert_eq!(cell(&world, 3, 3), (CellType::Wood, 0));
}

#[test]
fn sand_takes_the_only_open_diagonal_on_the_right() {
    let mut world = bordered(5, 1);
    world.place(2, 2, CellType::Sand).unwrap();
    world.place(2, 3, CellType::Dirt).unwrap();
    world.place(1, 3, CellType::Dirt).unwrap();
    world.update_sand();
    assert_eq!(cell(&world, 2, 2), (CellType::Empty, 0));
    assert_eq!(cell(&world, 3, 3), (CellType::Sand, 0));
}

#[test]
fn sand_takes_the_only_open_diagonal_on_the_left() {
    let mut world = bordered(5, 1);
    world.place(2, 2, CellType::Sand).unwrap();
    world.place(2, 3, CellType::Dirt).unwrap();
    world.place(3, 3, CellType::Dirt).unwrap();
    world.update_sand();
    assert_eq!(cell(&world, 2, 2), (CellType::Empty, 0));
    assert_eq!(cell(&world, 1, 3), (CellType::Sand, 0));
}

#[test]
fn sand_slides_whatever_stands_beside_it() {
    let mut world = bordered(5, 1);
    world.place(2, 2, CellType::Sand).unwrap();
    world.place(2, 3, CellType::Dirt).unwrap();
    world.place(1, 3, CellType::Dirt).unwrap();
    world.place(3, 2, CellType::Dirt).unwrap();
    world.update_sand();
    assert_eq!(cell(&world, 2, 2), (CellType::Empty, 0));
    assert_eq!(cell(&world, 3, 3), (CellType::Sand, 0));
}

#[test]
fn torn_sand_moves_to_exactly_one_diagonal() {
    let mut left = 0;
    let mut right = 0;
    for seed in 0..64u64 {
        let mut world = bordered(5, seed);
        world.place(2, 2, CellType::Sand).unwrap();
        world.place(2, 3, CellType::Dirt).unwrap();
        world.update_sand();
        assert_eq!(cell(&world, 2, 2), (CellType::Empty, 0));
        let went_left = cell(&world, 1, 3).0 == CellType::Sand;
        let went_right = cell(&world, 3, 3).0 == CellType::Sand;
        assert!(went_left != went_right);
        assert_eq!(count(&world, CellType::Sand), 1);
        if went_left {
            left += 1;
        } else {
            right += 1;
        }
    }
    assert!(left > 0);
    assert!(right > 0);
}

#[test]
fn sand_settles_the_same_way_for_the_same_seed() {
    let mut a = bordered(16, 77);
    let mut b = bordered(16, 77);
    for world in [&mut a, &mut b] {
        for y in 1..8i64 {
            for x in 3..12i64 {
                if (x + y) % 2 == 0 {
                    world.place(x, y, CellType::Sand).unwrap();
                }
            }
        }
        world.place(7, 12, CellType::Dirt).unwrap();
        world.fill(4, 10, CellType::Water, 6_000).unwrap();
    }
    for _ in 0..30 {
        a.update_sand();
        b.update_sand();
        for y in 0..16i64 {
            for x in 0..16i64 {
                assert_eq!(a.cell_at(x, y), b.cell_at(x, y));
            }
        }
    }
    assert!(a.has_border());
}

#[test]
fn sand_pushes_water_on_its_diagonal_upwards() {
    let mut world = bordered(5, 1);
    world.place(2, 2, CellType::Sand).unwrap();
    world.place(2, 3, CellType::Dirt).unwrap();
    world.place(1, 3, CellType::Dirt).unwrap();
    world.fill(3, 3, CellType::Water, 5_000).unwrap();
    world.update_sand();
    assert_eq!(cell(&world, 2, 2), (CellType::Empty, 0));
    assert_eq!(cell(&world, 3, 3), (CellType::Sand, 0));
    assert_eq!(cell(&world, 3, 2), (CellType::Water, 5_000));
}

#[test]
fn pushed_water_joins_the_water_it_lands_in() {
    let mut world = bordered(5, 1);
    world.place(2, 2, CellType::Sand).unwrap();
    world.place(2, 3, CellType::Dirt).unwrap();
    world.place(1, 3, CellType::Dirt).unwrap();
    world.fill(3, 3, CellType::Water, 5_000).unwrap();
    world.fill(3, 2, CellType::Water, 1_200).unwrap();
    world.update_sand();
    assert_eq!(cell(&world, 3, 3), (CellType::Sand, 0));
    assert_eq!(cell(&world, 3, 2), (CellType::Water, 6_200));
}

#[test]
fn pushed_water_tries_right_after_up() {
    let mut world = bordered(6, 1);
    world.place(2, 2, CellType::Sand).unwrap();
    world.place(2, 3, CellType::Dirt).unwrap();
    world.place(1, 3, CellType::Dirt).unwrap();
    world.place(3, 2, CellType::Dirt).unwrap();
    world.fill(3, 3, CellType::Water, 5_000).unwrap();
    world.update_sand();
    assert_eq!(cell(&world, 3, 3), (CellType::Sand, 0));
    assert_eq!(cell(&world, 4, 3), (CellType::Water, 5_000));
}

#[test]
fn pushed_water_tries_down_last() {
    let mut world = bordered(6, 1);
    world.place(3, 2, CellType::Sand).unwrap();
    world.place(3, 3, CellType::Dirt).unwrap();
    world.place(2, 3, CellType::Dirt).unwrap();
    world.place(4, 2, CellType::Dirt).unwrap();
    world.fill(4, 3, CellType::Water, 5_000).unwrap();
    world.update_sand();
    // up is dirt, right is the ring, left is dirt: the water goes down
    assert_eq!(cell(&world, 4, 3), (CellType::Sand, 0));
    assert_eq!(cell(&world, 4, 4), (CellType::Water, 5_000));
}

#[test]
fn sand_stays_where_water_cannot_be_pushed_aside() {
    let mut world = bordered(5, 1);
    world.place(2, 2, CellType::Sand).unwrap();
    world.place(2, 3, CellType::Dirt).unwrap();
    world.place(1, 3, CellType::Dirt).unwrap();
    world.place(3, 2, CellType::Dirt).unwrap();
    world.fill(3, 3, CellType::Water, 5_000).unwrap();
    world.update_sand();
    assert_eq!(cell(&world, 2, 2), (CellType::Sand, 0));
    assert_eq!(cell(&world, 3, 3), (CellType::Water, 5_000));
}

#[test]
fn sand_decides_on_the_grid_as_it_was_before_the_pass() {
    let mut world = bordered(5, 1);
    world.place(2, 1, CellType::Sand).unwrap();
    world.place(2, 2, CellType::Sand).unwrap();
    world.update_sand();
    // the upper grain sees the lower one in its way and slides aside,
    // the lower one falls: no grain is lost
    assert_eq!(cell(&world, 2, 3), (CellType::Sand, 0));
    assert_eq!(cell(&world, 2, 1), (CellType::Empty, 0));
    assert_eq!(count(&world, CellType::Sand), 2);
}
