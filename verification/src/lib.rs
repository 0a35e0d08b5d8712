//! A discrete-time, grid-based simulator of falling materials.
//!
//! A square lattice of cells, each holding a material and a mass, evolves
//! under one local rule per material: sand settles, water flows and keeps
//! its mass, fire spreads through wood, smoke rises and thins, wood falls
//! and floats. A tick runs the rules in a fixed order, each on a copy of the
//! grid that it reads as a snapshot while it writes the next state.
//!
//! * [`cell`]: the cell and its material.
//! * [`grid`]: the mathematical model of a buffer, which every contract is
//!   stated over.
//! * [`plane`]: a buffer, kept in an `ndarray` array.
//! * [`random`]: the generator, from the `rand` crate.
//! * [`flow`]: the arithmetic of water.
//! * [`conservation`]: the accounting of mass.
//! * [`sand`], [`water`]: the two rules that work through the grid cell by
//!   cell and accumulate their changes.
//! * [`point`], [`fire`], [`smoke`], [`wood`]: the rules that decide each cell
//!   from the snapshot alone.
//! * [`smooth`]: the relaxation that shapes generated terrain.
//! * [`world`]: the simulation and its operations.
pub mod cell;
pub mod conservation;
pub mod fire;
pub mod flow;
pub mod grid;
pub mod plane;
pub mod point;
pub mod random;
pub mod sand;
pub mod smoke;
pub mod smooth;
pub mod water;
pub mod wood;
pub mod world;
