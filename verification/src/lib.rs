//! A two-dimensional grid of fixed size, addressed by coordinate or by linear index.
//!
//! The cells live in one row-major buffer. A grid stores its width and derives its
//! height from the buffer's length, so every grid upholds that its length is a
//! positive multiple of its width.
//!
//! - [`coordinate`]: positions, their linear indices and their eight neighbours.
//! - [`grid`]: the grid itself, access to its cells by coordinate, walks over its
//!   cells and rows, and the neighbours of a cell that lie on the grid.
//! - [`builder`]: building a grid from items and a width, a height, or both.
//! - [`errors`]: why a grid could not be built.
//! - [`parse`]: reading a coordinate from text.
//! - [`render`]: writing a coordinate or a grid as text.
//! - [`convert`]: conversions and operators.
//! - [`arithmetic`]: the facts of arithmetic that the proofs rest on.
//!
//! Every function states what it returns in terms of a model: a grid is the sequence
//! of its cells, a text the sequence of its characters.

pub mod arithmetic;
pub mod builder;
pub mod convert;
pub mod coordinate;
pub mod errors;
pub mod grid;
pub mod parse;
pub mod render;

pub use builder::GridBuilder;
pub use coordinate::Coordinate;
pub use errors::{BuildError, GridConstructionError};
pub use grid::Grid;
pub use parse::{CoordinateParseError, NumberError};
