//! A toroidal Game of Life engine: a rectangular grid of binary cells,
//! neighbour counting with wraparound edges, and the standard Conway
//! transition rule, all specified over a mathematical model of the buffer.

pub mod grid;
pub mod laws;
pub mod model;
mod random;
