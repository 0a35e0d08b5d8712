//! One buffer of cells, kept in a two-dimensional `ndarray` array.
use vstd::prelude::*;
use crate::cell::{Cell, CellType};
use crate::grid::{open_kind, put, square, with_content, with_kind, with_mass, Grid};

verus! {

/// A two-dimensional array of cells.
///
/// The array itself is `ndarray::Array2<Cell>`, which the verifier does not
/// look into: what it holds is known only through [`plane_rows`] and the
/// contracts of the five methods below that call into `ndarray`.
#[verifier::external_body]
pub struct Plane {
    cells: ndarray::Array2<Cell>,
}

/// The cells that a plane holds: its rows from the top, each from the left.
pub uninterp spec fn plane_rows(p: Plane) -> Seq<Seq<Cell>>;

/// The bytes that one cell takes at most in memory.
pub const CELL_BYTES: usize = 32;

/// A side length whose square array of cells can be allocated.
pub open spec fn fits(n: usize) -> bool {
    n * n * CELL_BYTES <= isize::MAX
}

impl View for Plane {
    type V = Grid;

    open spec fn view(&self) -> Grid {
        plane_rows(*self)
    }
}

impl Plane {
    /// Calls `ndarray::Array2::default` with the shape `(n, n)`. It allocates
    /// `n * n` cells and fills each with `Cell::default()`; it panics where
    /// the element count, or the allocation, passes `isize::MAX`, which
    /// `fits` rules out.
    #[verifier::external_body]
    pub(crate) fn filled(n: usize) -> (p: Plane)
        requires
            fits(n),
        ensures
            square(plane_rows(p), n as int),
            forall|r: int, c: int|
                0 <= r < n && 0 <= c < n ==> (#[trigger] plane_rows(p)[r][c]) == Cell::empty(),
    {
        Plane { cells: ndarray::Array2::<Cell>::default((n, n)) }
    }

    /// Calls `ndarray::ArrayBase::dim`, which for a two-dimensional array
    /// gives the number of rows and the length that every row has.
    #[verifier::external_body]
    pub(crate) fn dim(&self) -> (d: (usize, usize))
        ensures
            d.0 == plane_rows(*self).len(),
            forall|r: int| 0 <= r < plane_rows(*self).len() ==> (#[trigger] plane_rows(*self)[r]).len() == d.1,
    {
        self.cells.dim()
    }

    /// Indexes the array with `[y, x]`, which gives the element of row `y`
    /// and column `x` and panics outside the array's shape.
    #[verifier::external_body]
    pub(crate) fn get(&self, y: usize, x: usize) -> (c: Cell)
        requires
            y < plane_rows(*self).len(),
            x < plane_rows(*self)[y as int].len(),
        ensures
            c == plane_rows(*self)[y as int][x as int],
    {
        self.cells[[y, x]]
    }

    /// Assigns through the array's mutable index `[y, x]`, which replaces
    /// the element of row `y` and column `x`, leaves every other element and
    /// the shape alone, and panics outside the array's shape.
    #[verifier::external_body]
    pub(crate) fn set(&mut self, y: usize, x: usize, cell: Cell)
        requires
            y < plane_rows(*old(self)).len(),
            x < plane_rows(*old(self))[y as int].len(),
        ensures
            plane_rows(*final(self)) == put(plane_rows(*old(self)), y as int, x as int, cell),
    {
        self.cells[[y, x]] = cell;
    }

    /// Calls the array's `clone`, which gives a new array of the same shape
    /// that holds a copy of every element.
    #[verifier::external_body]
    pub(crate) fn duplicate(&self) -> (p: Plane)
        ensures
            plane_rows(p) == plane_rows(*self),
    {
        Plane { cells: self.cells.clone() }
    }

    /// The material at row `y`, column `x`.
    pub(crate) fn kind(&self, y: usize, x: usize) -> (k: CellType)
        requires
            y < self@.len(),
            x < self@[y as int].len(),
        ensures
            k == self@[y as int][x as int].cell_type,
    {
        self.get(y, x).cell_type
    }

    /// The mass at row `y`, column `x`.
    pub(crate) fn mass(&self, y: usize, x: usize) -> (m: u64)
        requires
            y < self@.len(),
            x < self@[y as int].len(),
        ensures
            m == self@[y as int][x as int].mass,
    {
        self.get(y, x).mass
    }

    /// Whether the cell at row `y`, column `x` is vacuum or water.
    pub(crate) fn is_open(&self, y: usize, x: usize) -> (b: bool)
        requires
            y < self@.len(),
            x < self@[y as int].len(),
        ensures
            b == open_kind(self@[y as int][x as int].cell_type),
    {
        let k = self.get(y, x).cell_type;
        k == CellType::Empty || k == CellType::Water
    }

    /// Replaces the material at row `y`, column `x`.
    pub(crate) fn set_kind(&mut self, y: usize, x: usize, kind: CellType)
        requires
            y < old(self)@.len(),
            x < old(self)@[y as int].len(),
        ensures
            final(self)@ == with_kind(old(self)@, y as int, x as int, kind),
    {
        let c = self.get(y, x);
        self.set(y, x, Cell { x: c.x, y: c.y, cell_type: kind, mass: c.mass });
    }

    /// Replaces the mass at row `y`, column `x`.
    pub(crate) fn set_mass(&mut self, y: usize, x: usize, mass: u64)
        requires
            y < old(self)@.len(),
            x < old(self)@[y as int].len(),
        ensures
            final(self)@ == with_mass(old(self)@, y as int, x as int, mass),
    {
        let c = self.get(y, x);
        self.set(y, x, Cell { x: c.x, y: c.y, cell_type: c.cell_type, mass: mass });
    }

    /// Replaces material and mass at row `y`, column `x`.
    pub(crate) fn set_content(&mut self, y: usize, x: usize, kind: CellType, mass: u64)
        requires
            y < old(self)@.len(),
            x < old(self)@[y as int].len(),
        ensures
            final(self)@ == with_content(old(self)@, y as int, x as int, kind, mass),
    {
        let c = self.get(y, x);
        self.set(y, x, Cell { x: c.x, y: c.y, cell_type: kind, mass: mass });
    }
}

} // verus!
