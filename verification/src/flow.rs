//! How much water moves between two neighbouring cells in one tick.
//!
//! Mass is counted in thousandths of a nominal unit, so a full cell holds
//! `MAX_MASS = 10_000`. Every flow is computed exactly and rounded down to a
//! whole number of thousandths once, at the end.
use vstd::prelude::*;

verus! {

/// Water below this mass evaporates.
pub const MIN_MASS: u64 = 10;

/// The mass of a full cell of water.
pub const MAX_MASS: u64 = 10_000;

/// How much more than a full cell the cell underneath may hold.
pub const MAX_COMPRESS: u64 = 300;

/// A cell that keeps less than this stops flowing for the tick, and a flow
/// above this is damped.
pub const MIN_FLOW: u64 = 500;

/// The most that one transfer moves.
pub const MAX_FLOW: u64 = 3_000;

/// The sum of two masses, held at the largest mass a cell can store.
pub open spec fn add_mass(a: u64, b: u64) -> u64 {
    if a + b <= u64::MAX {
        (a + b) as u64
    } else {
        u64::MAX
    }
}

/// The difference of two masses, held at zero.
pub open spec fn sub_mass(a: u64, b: u64) -> u64 {
    if a >= b {
        (a - b) as u64
    } else {
        0
    }
}

/// The mass that the lower of two stacked cells should hold when the two
/// hold `mass + dest_mass` together: a full cell while the total fits in one,
/// a little more than full while it fits in two, and half of the total (plus
/// half the compression allowance) beyond that.
pub open spec fn flow_target(mass: int, dest_mass: int) -> int {
    let sum = mass + dest_mass;
    if sum <= MAX_MASS {
        MAX_MASS as int
    } else if sum < 2 * MAX_MASS + MAX_COMPRESS {
        (MAX_MASS * MAX_MASS + sum * MAX_COMPRESS) / (MAX_MASS + MAX_COMPRESS)
    } else {
        (sum + MAX_COMPRESS) / 2
    }
}

/// `flow` held between nothing and the lesser of `MAX_FLOW` and `remaining`.
pub open spec fn capped(flow: int, remaining: int) -> int {
    let most = if remaining < MAX_FLOW {
        remaining
    } else {
        MAX_FLOW as int
    };
    if flow < 0 {
        0
    } else if flow > most {
        most
    } else {
        flow
    }
}

/// What a cell of mass `mass` sends to the cell of mass `below` under it:
/// what the lower cell lacks of its target, three quarters of that where it
/// is more than `MIN_FLOW`, capped.
pub open spec fn down_flow(mass: int, below: int) -> int {
    let raw = flow_target(mass, below) - below;
    capped(
        if raw > MIN_FLOW {
            raw * 3 / 4
        } else {
            raw
        },
        mass,
    )
}

/// What a cell that still has `remaining` sends to the cell of mass `beside`
/// next to it: a third of the difference, three quarters of that (a quarter
/// of the difference) where the third is more than `MIN_FLOW`, capped.
pub open spec fn side_flow(remaining: int, beside: int) -> int {
    let diff = remaining - beside;
    capped(
        if diff > 3 * MIN_FLOW {
            diff / 4
        } else {
            diff / 3
        },
        remaining,
    )
}

/// What a cell that had `mass` and still has `remaining` pushes into the cell
/// of mass `above` over it: what it has beyond its own target, four fifths
/// of that where it is more than `MIN_FLOW`, capped.
pub open spec fn up_flow(mass: int, remaining: int, above: int) -> int {
    let raw = remaining - flow_target(mass, above);
    capped(
        if raw > MIN_FLOW {
            raw * 4 / 5
        } else {
            raw
        },
        remaining,
    )
}

/// The target mass of the lower of two stacked cells.
pub fn get_flow(mass: u64, dest_mass: u64) -> (target: u128)
    ensures
        target == flow_target(mass as int, dest_mass as int),
        MAX_MASS <= target <= u64::MAX + MAX_COMPRESS,
{
    let sum: u128 = mass as u128 + dest_mass as u128;
    if sum <= MAX_MASS as u128 {
        MAX_MASS as u128
    } else if sum < 2 * (MAX_MASS as u128) + MAX_COMPRESS as u128 {
        (100_000_000u128 + sum * 300u128) / 10_300u128
    } else {
        (sum + MAX_COMPRESS as u128) / 2
    }
}

/// `flow` held at the lesser of `MAX_FLOW` and `remaining`.
fn cap(flow: u128, remaining: u64) -> (f: u64)
    ensures
        f == capped(flow as int, remaining as int),
        f <= remaining,
        f <= MAX_FLOW,
{
    let most: u64 = if remaining < MAX_FLOW {
        remaining
    } else {
        MAX_FLOW
    };
    if flow > most as u128 {
        most
    } else {
        flow as u64
    }
}

/// The mass that a cell of mass `mass` sends down into a cell of mass `below`.
pub fn flow_down(mass: u64, below: u64) -> (f: u64)
    ensures
        f == down_flow(mass as int, below as int),
        f <= mass,
        f <= MAX_FLOW,
{
    let target: u128 = get_flow(mass, below);
    if target <= below as u128 {
        0
    } else {
        let raw: u128 = target - below as u128;
        if raw > MIN_FLOW as u128 {
            cap(raw * 3 / 4, mass)
        } else {
            cap(raw, mass)
        }
    }
}

/// The mass that a cell with `remaining` left sends sideways into a cell of
/// mass `beside`.
pub fn flow_side(remaining: u64, beside: u64) -> (f: u64)
    ensures
        f == side_flow(remaining as int, beside as int),
        f <= remaining,
        f <= MAX_FLOW,
{
    if remaining <= beside {
        0
    } else {
        let diff: u64 = remaining - beside;
        if diff > 3 * MIN_FLOW {
            cap((diff / 4) as u128, remaining)
        } else {
            cap((diff / 3) as u128, remaining)
        }
    }
}

/// The mass that a cell which had `mass` and has `remaining` left pushes up
/// into a cell of mass `above`.
pub fn flow_up(mass: u64, remaining: u64, above: u64) -> (f: u64)
    ensures
        f == up_flow(mass as int, remaining as int, above as int),
        f <= remaining,
        f <= MAX_FLOW,
{
    let target: u128 = get_flow(mass, above);
    if remaining as u128 <= target {
        0
    } else {
        let raw: u128 = remaining as u128 - target;
        if raw > MIN_FLOW as u128 {
            cap(raw * 4 / 5, remaining)
        } else {
            cap(raw, remaining)
        }
    }
}

} // verus!
