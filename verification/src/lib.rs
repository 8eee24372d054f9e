//! Fixed-size containers of optional elements: a vector and a square matrix.
//!
//! Both containers allocate their slots once, when they are built, and never
//! change their extent afterwards. Every slot is either empty or holds one
//! value. Reads and writes are checked against the bounds: a read outside
//! the container yields nothing, and a write outside it does nothing.
//!
//! The containers are [`Vector`] and [`SquareMatrix`]. Their contracts are
//! written over the models in [`slots`] and [`grid`], which also hold the
//! laws that relate reads, writes and fills.

pub mod grid;
pub mod slots;
pub mod square_matrix;
pub mod vector;

pub use crate::square_matrix::SquareMatrix;
pub use crate::vector::Vector;
