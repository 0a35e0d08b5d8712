use falling_sand::cell::CellType;
use falling_sand::world::World;

fn bordered(n: usize) -> World {
    let mut world = World::new(n, 5);
    world.add_border();
    world
}

fn cell(world: &World, x: i64, y: i64) -> (CellType, u64) {
    let c = world.cell_at(x, y).unwrap();
    (c.cell_type, c.mass)
}

fn total_mass(world: &World) -> u64 {
    let n = world.dimensions() as i64;
    let mut sum = 0;
    for y in 0..n {
        for x in 0..n {
            sum += world.cell_at(x, y).unwrap().mass;
        }
    }
    sum
}

fn full_cell_on_dirt() -> World {
    let mut world = bordered(5);
    world.fill(2, 2, CellType::Water, 10_000).unwrap();
    world.place(2, 3, CellType::Dirt).unwrap();
    world
}

#[test]
fn full_cell_on_dirt_spreads_right_then_left() {
    let mut world = full_cell_on_dirt();
    world.update_water();
    assert_eq!(cell(&world, 3, 2), (CellType::Water, 2_500));
    assert_eq!(cell(&world, 1, 2), (CellType::Water, 1_875));
    assert_eq!(cell(&world, 2, 2), (CellType::Water, 5_625));
    assert_eq!(cell(&world, 2, 1), (CellType::Empty, 0));
    assert_eq!(cell(&world, 2, 3), (CellType::Dirt, 0));
    assert_eq!(total_mass(&world), 10_000);
}

#[test]
fn full_cell_on_dirt_spreads_in_one_tick() {
    let mut world = full_cell_on_dirt();
    world.update(16);
    assert_eq!(cell(&world, 3, 2), (CellType::Water, 2_500));
    assert_eq!(cell(&world, 1, 2), (CellType::Water, 1_875));
    assert_eq!(cell(&world, 2, 2), (CellType::Water, 5_625));
    assert_eq!(total_mass(&world), 10_000);
}

#[test]
fn water_over_vacuum_flows_down_and_not_sideways() {
    let mut world = bordered(5);
    world.fill(2, 1, CellType::Water, 10_000).unwrap();
    world.update_water();
    assert_eq!(cell(&world, 2, 1), (CellType::Water, 7_000));
    assert_eq!(cell(&world, 2, 2), (CellType::Water, 3_000));
    assert_eq!(cell(&world, 1, 1), (CellType::Empty, 0));
    assert_eq!(cell(&world, 3, 1), (CellType::Empty, 0));
}

#[test]
fn water_over_water_with_room_flows_down_only() {
    let mut world = bordered(5);
    world.fill(2, 2, CellType::Water, 5_000).unwrap();
    world.fill(2, 3, CellType::Water, 9_000).unwrap();
    world.update_water();
    // the upper cell sends 837 down; the lower, on the ring, spreads sideways
    assert_eq!(cell(&world, 2, 2), (CellType::Water, 4_163));
    assert_eq!(cell(&world, 1, 2), (CellType::Empty, 0));
    assert_eq!(cell(&world, 3, 2), (CellType::Empty, 0));
    // lower: 9000 -> right 2250, then left (6750 / 4) 1687
    assert_eq!(cell(&world, 3, 3), (CellType::Water, 2_250));
    assert_eq!(cell(&world, 1, 3), (CellType::Water, 1_687));
    assert_eq!(cell(&world, 2, 3), (CellType::Water, 9_000 + 837 - 2_250 - 1_687));
    assert_eq!(total_mass(&world), 14_000);
}

#[test]
fn water_over_full_water_spreads_sideways() {
    let mut world = bordered(5);
    world.fill(2, 2, CellType::Water, 4_000).unwrap();
    world.fill(2, 3, CellType::Water, 10_000).unwrap();
    world.fill(1, 3, CellType::Dirt, 0).unwrap();
    world.fill(3, 3, CellType::Dirt, 0).unwrap();
    world.update_water();
    // target for 14000 in all is 10116: 116 go down, then 3884 / 3 to the
    // right (971 after damping), then (2913 - 0) / 3 to the left (728)
    assert_eq!(cell(&world, 3, 2), (CellType::Water, 971));
    assert_eq!(cell(&world, 1, 2), (CellType::Water, 728));
    assert_eq!(cell(&world, 2, 2), (CellType::Water, 4_000 - 116 - 971 - 728));
    assert_eq!(total_mass(&world), 14_000);
}

#[test]
fn water_below_the_least_mass_evaporates() {
    let mut world = bordered(5);
    world.fill(2, 2, CellType::Water, 9).unwrap();
    world.update_water();
    assert_eq!(cell(&world, 2, 2), (CellType::Empty, 0));
    assert_eq!(total_mass(&world), 0);
}

#[test]
fn a_trickle_does_not_turn_its_receiver_to_water() {
    let mut world = bordered(5);
    world.fill(2, 2, CellType::Water, 10).unwrap();
    world.update_water();
    assert_eq!(cell(&world, 2, 2), (CellType::Water, 0));
    assert_eq!(cell(&world, 2, 3), (CellType::Empty, 10));
}

#[test]
fn a_receiver_over_the_least_mass_turns_to_water() {
    let mut world = bordered(5);
    world.fill(2, 2, CellType::Water, 11).unwrap();
    world.update_water();
    assert_eq!(cell(&world, 2, 2), (CellType::Water, 0));
    assert_eq!(cell(&world, 2, 3), (CellType::Water, 11));
}

#[test]
fn a_cell_that_keeps_little_stops_after_flowing_down() {
    let mut world = bordered(5);
    world.fill(2, 2, CellType::Water, 3_400).unwrap();
    world.fill(2, 3, CellType::Water, 9_990).unwrap();
    world.update_water();
    // 13390 in all: target 10098, lacks 108; the cell keeps 3292 and the
    // lower cell, still short of full, bars the sideways steps
    assert_eq!(cell(&world, 2, 2).1, 3_292);
    assert_eq!(cell(&world, 1, 2), (CellType::Empty, 0));
    assert_eq!(cell(&world, 3, 2), (CellType::Empty, 0));
}

#[test]
fn water_beside_floating_wood_lifts_it_and_ends_its_tick() {
    let mut world = full_cell_on_dirt();
    world.place(3, 2, CellType::Wood).unwrap();
    world.update_water();
    assert_eq!(cell(&world, 3, 1), (CellType::Wood, 0));
    assert_eq!(cell(&world, 3, 2), (CellType::Empty, 0));
    // no flow to the right and none to the left either
    assert_eq!(cell(&world, 2, 2), (CellType::Water, 10_000));
    assert_eq!(cell(&world, 1, 2), (CellType::Empty, 0));
}

#[test]
fn water_beside_stuck_wood_ends_its_tick() {
    let mut world = full_cell_on_dirt();
    world.place(3, 2, CellType::Wood).unwrap();
    world.place(3, 1, CellType::Wood).unwrap();
    world.update_water();
    assert_eq!(cell(&world, 3, 1), (CellType::Wood, 0));
    assert_eq!(cell(&world, 3, 2), (CellType::Wood, 0));
    assert_eq!(cell(&world, 2, 2), (CellType::Water, 10_000));
    assert_eq!(cell(&world, 1, 2), (CellType::Empty, 0));
}

#[test]
fn water_flows_right_before_it_meets_wood_on_its_left() {
    let mut world = full_cell_on_dirt();
    world.place(1, 2, CellType::Wood).unwrap();
    world.update_water();
    assert_eq!(cell(&world, 3, 2), (CellType::Water, 2_500));
    assert_eq!(cell(&world, 2, 2), (CellType::Water, 7_500));
    assert_eq!(cell(&world, 1, 1), (CellType::Wood, 0));
    assert_eq!(cell(&world, 1, 2), (CellType::Empty, 0));
}

#[test]
fn a_wood_column_beside_water_rises_by_one() {
    let mut world = bordered(7);
    world.fill(2, 4, CellType::Water, 10_000).unwrap();
    world.place(2, 5, CellType::Dirt).unwrap();
    world.place(3, 4, CellType::Wood).unwrap();
    world.place(3, 3, CellType::Wood).unwrap();
    world.update_water();
    assert_eq!(cell(&world, 3, 2).0, CellType::Wood);
    assert_eq!(cell(&world, 3, 3).0, CellType::Wood);
    assert_eq!(cell(&world, 3, 4).0, CellType::Empty);
}

fn boxed_in(mass: u64) -> World {
    let mut world = bordered(7);
    world.fill(3, 4, CellType::Water, mass).unwrap();
    world.place(3, 5, CellType::Dirt).unwrap();
    world.place(2, 4, CellType::Dirt).unwrap();
    world.place(4, 4, CellType::Dirt).unwrap();
    world
}

#[test]
fn water_under_pressure_pushes_up_into_vacuum() {
    let mut world = boxed_in(12_000);
    world.update_water();
    assert_eq!(cell(&world, 3, 3), (CellType::Water, 1_553));
    assert_eq!(cell(&world, 3, 4), (CellType::Water, 10_447));
}

#[test]
fn water_without_pressure_does_not_push_up() {
    let mut world = boxed_in(10_300);
    world.update_water();
    assert_eq!(cell(&world, 3, 3), (CellType::Empty, 0));
    assert_eq!(cell(&world, 3, 4), (CellType::Water, 10_300));
}

#[test]
fn water_under_pressure_lifts_the_wood_over_it_by_one_step() {
    let mut world = boxed_in(30_000);
    world.place(3, 3, CellType::Wood).unwrap();
    world.update_water();
    assert_eq!(cell(&world, 3, 2), (CellType::Wood, 0));
    assert_eq!(cell(&world, 3, 3), (CellType::Water, 3_000));
    assert_eq!(cell(&world, 3, 4), (CellType::Water, 27_000));
    assert_eq!(cell(&world, 3, 1), (CellType::Empty, 0));
}

#[test]
fn lifted_wood_stays_up_through_the_rest_of_the_tick() {
    let mut world = boxed_in(30_000);
    world.place(3, 3, CellType::Wood).unwrap();
    world.update(16);
    assert_eq!(cell(&world, 3, 2), (CellType::Wood, 0));
    assert_eq!(cell(&world, 3, 3), (CellType::Water, 3_000));
}

#[test]
fn a_wood_column_over_pressure_rises_by_one() {
    let mut world = boxed_in(30_000);
    world.place(3, 3, CellType::Wood).unwrap();
    world.place(3, 2, CellType::Wood).unwrap();
    world.update_water();
    assert_eq!(cell(&world, 3, 1), (CellType::Wood, 0));
    assert_eq!(cell(&world, 3, 2), (CellType::Wood, 0));
    assert_eq!(cell(&world, 3, 3), (CellType::Water, 3_000));
}

#[test]
fn stuck_wood_takes_no_pressure() {
    let mut world = boxed_in(30_000);
    world.place(3, 3, CellType::Wood).unwrap();
    world.place(3, 2, CellType::Dirt).unwrap();
    world.update_water();
    assert_eq!(cell(&world, 3, 3), (CellType::Wood, 0));
    assert_eq!(cell(&world, 3, 4), (CellType::Water, 30_000));
}

#[test]
fn wood_that_floats_onto_water_leaves_no_mass_there() {
    let mut world = boxed_in(30_000);
    world.place(3, 3, CellType::Wood).unwrap();
    world.fill(3, 2, CellType::Water, 5).unwrap();
    world.update_water();
    assert_eq!(cell(&world, 3, 2), (CellType::Wood, 0));
}

#[test]
fn a_pool_never_gains_mass_over_many_passes() {
    let mut world = bordered(12);
    for x in 3..8i64 {
        world.fill(x, 3, CellType::Water, 10_000).unwrap();
        world.fill(x, 4, CellType::Water, 8_000).unwrap();
    }
    world.place(5, 8, CellType::Dirt).unwrap();
    let mut before = total_mass(&world);
    for _ in 0..20 {
        world.update_water();
        let after = total_mass(&world);
        assert!(after <= before);
        before = after;
    }
    assert!(world.has_border());
}

#[test]
fn a_pass_without_wood_or_thin_water_keeps_the_mass_exactly() {
    let mut world = bordered(12);
    for x in 2..9i64 {
        world.fill(x, 3, CellType::Water, 10_000 + 700 * x as u64).unwrap();
        world.fill(x, 4, CellType::Water, 9_000).unwrap();
        world.fill(x, 7, CellType::Water, 25_000).unwrap();
    }
    world.place(5, 8, CellType::Dirt).unwrap();
    world.place(6, 5, CellType::Sand).unwrap();
    let before = total_mass(&world);
    world.update_water();
    assert_eq!(total_mass(&world), before);
}

#[test]
fn evaporation_takes_what_had_flowed_in_too() {
    let mut world = bordered(5);
    world.fill(2, 1, CellType::Water, 10_000).unwrap();
    world.fill(2, 2, CellType::Water, 5).unwrap();
    world.update_water();
    // 3000 flow down into the thin cell, which then evaporates with them
    assert_eq!(cell(&world, 2, 1), (CellType::Water, 7_000));
    assert_eq!(cell(&world, 2, 2), (CellType::Empty, 0));
    assert_eq!(total_mass(&world), 7_000);
}

#[test]
fn a_transfer_holds_at_the_largest_mass() {
    let mut world = bordered(5);
    world.fill(2, 2, CellType::Water, 10_000).unwrap();
    world.place(2, 3, CellType::Dirt).unwrap();
    world.fill(3, 2, CellType::Empty, u64::MAX - 100).unwrap();
    world.fill(1, 2, CellType::Dirt, 0).unwrap();
    // the snapshot shows vacuum of enormous stale mass on the right: no flow
    world.update_water();
    assert_eq!(cell(&world, 2, 2), (CellType::Water, 10_000));
    assert_eq!(cell(&world, 3, 2), (CellType::Water, u64::MAX - 100));
}
