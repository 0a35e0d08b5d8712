//! Rules that decide each interior cell from the snapshot alone.
//!
//! Wood, fire and smoke move at most one cell per tick and never compete for
//! a destination, so what a cell holds after the pass can be read off the
//! snapshot around it. Such a rule is a function from the snapshot and a
//! position to a cell, and a pass applies it at every interior position.
use vstd::prelude::*;
use crate::cell::Cell;
use crate::grid::{before, interior, same_ring, steady, Grid};
use crate::plane::Plane;

verus! {

/// A rule that gives the new cell at a position from the snapshot.
pub trait PointRule {
    /// The cell at `(r, c)` after the pass over `snap`.
    spec fn after(snap: Grid, r: int, c: int) -> Cell;

    /// The rule keeps the position tags of the cell it replaces.
    proof fn keeps_tags(snap: Grid, r: int, c: int)
        ensures
            Self::after(snap, r, c).x == snap[r][c].x,
            Self::after(snap, r, c).y == snap[r][c].y,
    ;

    /// Computes the cell at `(y, x)` after the pass.
    fn at(snap: &Plane, n: usize, y: usize, x: usize) -> (cell: Cell)
        requires
            steady(snap@, n as int),
            interior(n as int, y as int, x as int),
        ensures
            cell == Self::after(snap@, y as int, x as int),
    ;
}

/// `snap` with the rule applied at every interior position.
pub open spec fn pointwise<R: PointRule>(snap: Grid) -> Grid {
    Seq::new(
        snap.len(),
        |r: int|
            Seq::new(
                snap[r].len(),
                |c: int|
                    if interior(snap.len() as int, r, c) {
                        R::after(snap, r, c)
                    } else {
                        snap[r][c]
                    },
            ),
    )
}

/// A pass of such a rule keeps the shape and the tags and never touches the
/// ring.
pub proof fn pointwise_steady<R: PointRule>(snap: Grid, n: int)
    requires
        steady(snap, n),
    ensures
        steady(pointwise::<R>(snap), n),
        same_ring(pointwise::<R>(snap), snap),
{
    let after = pointwise::<R>(snap);
    assert forall|r: int, c: int| 0 <= r < after.len() && 0 <= c < after[r].len() implies {
        &&& (#[trigger] after[r][c]).x == c
        &&& after[r][c].y == r
    } by {
        R::keeps_tags(snap, r, c);
    }
}

/// Applies the rule at every interior position of `snap`, which `scratch`
/// starts as a copy of.
pub(crate) fn gather<R: PointRule>(snap: &Plane, scratch: &mut Plane)
    requires
        steady(snap@, snap@.len() as int),
        old(scratch)@ == snap@,
    ensures
        final(scratch)@ == pointwise::<R>(snap@),
        steady(final(scratch)@, snap@.len() as int),
{
    let n: usize = snap.dim().0;
    if n >= 3 {
        let mut y: usize = 1;
        while y < n - 1
            invariant
                n >= 3,
                1 <= y <= n - 1,
                steady(snap@, n as int),
                steady(scratch@, n as int),
                forall|r: int, c: int|
                    0 <= r < n && 0 <= c < n ==> (#[trigger] scratch@[r][c]) == if interior(
                        n as int,
                        r,
                        c,
                    ) && before(r, c, y as int, 1) {
                        R::after(snap@, r, c)
                    } else {
                        snap@[r][c]
                    },
            decreases n - y,
        {
            let mut x: usize = 1;
            while x < n - 1
                invariant
                    n >= 3,
                    1 <= y < n - 1,
                    1 <= x <= n - 1,
                    steady(snap@, n as int),
                    steady(scratch@, n as int),
                    forall|r: int, c: int|
                        0 <= r < n && 0 <= c < n ==> (#[trigger] scratch@[r][c]) == if interior(
                            n as int,
                            r,
                            c,
                        ) && before(r, c, y as int, x as int) {
                            R::after(snap@, r, c)
                        } else {
                            snap@[r][c]
                        },
                decreases n - x,
            {
                let cell = R::at(snap, n, y, x);
                proof {
                    R::keeps_tags(snap@, y as int, x as int);
                }
                scratch.set(y, x, cell);
                x = x + 1;
            }
            y = y + 1;
        }
    }
    assert(scratch@ =~~= pointwise::<R>(snap@));
}

} // verus!
