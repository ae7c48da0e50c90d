//! Conversions between the library's types and those of the standard library, and the
//! operators that grids support.

use vstd::prelude::*;
use vstd::std_specs::convert::{FromSpecImpl, TryFromSpecImpl};
use vstd::std_specs::iter::IteratorSpec;

use crate::builder::GridBuilder;
use crate::coordinate::Coordinate;
use crate::errors::GridConstructionError;
use crate::grid::Grid;
use crate::parse::{parse_pair, spec_parse_pair, CoordinateParseError};

verus! {

impl From<(usize, usize)> for Coordinate {
    /// Creates a coordinate from an `(x, y)` pair.
    fn from(pair: (usize, usize)) -> (coordinate: Self) {
        Coordinate::new(pair.0, pair.1)
    }
}

impl FromSpecImpl<(usize, usize)> for Coordinate {
    open spec fn obeys_from_spec() -> bool {
        true
    }

    open spec fn from_spec(pair: (usize, usize)) -> Self {
        Coordinate { x: pair.0, y: pair.1 }
    }
}

impl From<&(usize, usize)> for Coordinate {
    /// Creates a coordinate from a reference to an `(x, y)` pair.
    fn from(pair: &(usize, usize)) -> (coordinate: Self) {
        Coordinate::new(pair.0, pair.1)
    }
}

impl FromSpecImpl<&(usize, usize)> for Coordinate {
    open spec fn obeys_from_spec() -> bool {
        true
    }

    open spec fn from_spec(pair: &(usize, usize)) -> Self {
        Coordinate { x: pair.0, y: pair.1 }
    }
}

impl From<[usize; 2]> for Coordinate {
    /// Creates a coordinate from an `[x, y]` array.
    fn from(pair: [usize; 2]) -> (coordinate: Self) {
        Coordinate::new(pair[0], pair[1])
    }
}

impl FromSpecImpl<[usize; 2]> for Coordinate {
    open spec fn obeys_from_spec() -> bool {
        true
    }

    open spec fn from_spec(pair: [usize; 2]) -> Self {
        Coordinate { x: pair@[0], y: pair@[1] }
    }
}

impl From<&[usize; 2]> for Coordinate {
    /// Creates a coordinate from a reference to an `[x, y]` array.
    fn from(pair: &[usize; 2]) -> (coordinate: Self) {
        Coordinate::new(pair[0], pair[1])
    }
}

impl FromSpecImpl<&[usize; 2]> for Coordinate {
    open spec fn obeys_from_spec() -> bool {
        true
    }

    open spec fn from_spec(pair: &[usize; 2]) -> Self {
        Coordinate { x: pair@[0], y: pair@[1] }
    }
}

impl From<&Coordinate> for Coordinate {
    /// Copies the coordinate behind the reference.
    fn from(coordinate: &Coordinate) -> (copy: Self) {
        *coordinate
    }
}

impl FromSpecImpl<&Coordinate> for Coordinate {
    open spec fn obeys_from_spec() -> bool {
        true
    }

    open spec fn from_spec(coordinate: &Coordinate) -> Self {
        *coordinate
    }
}

impl From<Coordinate> for (usize, usize) {
    /// Gives the coordinate as an `(x, y)` pair.
    fn from(coordinate: Coordinate) -> (pair: Self) {
        (coordinate.x, coordinate.y)
    }
}

impl FromSpecImpl<Coordinate> for (usize, usize) {
    open spec fn obeys_from_spec() -> bool {
        true
    }

    open spec fn from_spec(coordinate: Coordinate) -> Self {
        (coordinate.x, coordinate.y)
    }
}

impl From<&Coordinate> for (usize, usize) {
    /// Gives the coordinate as an `(x, y)` pair.
    fn from(coordinate: &Coordinate) -> (pair: Self) {
        (coordinate.x, coordinate.y)
    }
}

impl FromSpecImpl<&Coordinate> for (usize, usize) {
    open spec fn obeys_from_spec() -> bool {
        true
    }

    open spec fn from_spec(coordinate: &Coordinate) -> Self {
        (coordinate.x, coordinate.y)
    }
}

impl From<Coordinate> for [usize; 2] {
    /// Gives the coordinate as an `[x, y]` array.
    fn from(coordinate: Coordinate) -> (pair: Self) {
        [coordinate.x, coordinate.y]
    }
}

impl FromSpecImpl<Coordinate> for [usize; 2] {
    open spec fn obeys_from_spec() -> bool {
        true
    }

    open spec fn from_spec(coordinate: Coordinate) -> Self {
        [coordinate.x, coordinate.y]
    }
}

impl From<&Coordinate> for [usize; 2] {
    /// Gives the coordinate as an `[x, y]` array.
    fn from(coordinate: &Coordinate) -> (pair: Self) {
        [coordinate.x, coordinate.y]
    }
}

impl FromSpecImpl<&Coordinate> for [usize; 2] {
    open spec fn obeys_from_spec() -> bool {
        true
    }

    open spec fn from_spec(coordinate: &Coordinate) -> Self {
        [coordinate.x, coordinate.y]
    }
}

impl<'a, 'b> TryFrom<(&'a str, &'b str)> for Coordinate {
    type Error = CoordinateParseError;

    /// Reads a coordinate from the texts of its two components.
    fn try_from(pair: (&'a str, &'b str)) -> (coordinate: Result<Self, Self::Error>) {
        parse_pair(pair.0, pair.1)
    }
}

impl<'a, 'b> TryFromSpecImpl<(&'a str, &'b str)> for Coordinate {
    open spec fn obeys_try_from_spec() -> bool {
        true
    }

    open spec fn try_from_spec(pair: (&'a str, &'b str)) -> Result<Self, Self::Error> {
        spec_parse_pair(pair.0@, pair.1@)
    }
}

impl<I: Iterator> TryFrom<(I, usize)> for Grid<I::Item> {
    type Error = GridConstructionError;

    /// Creates a grid from what an iterator yields and the desired width.
    ///
    /// A width of zero is refused. Of an iterator that yields what it is foretold to
    /// yield, the grid holds those items, and there is a grid exactly where their
    /// number is a positive multiple of the width.
    fn try_from(pair: (I, usize)) -> (grid: Result<Self, Self::Error>)
        ensures
            match grid {
                Ok(g) => pair.1 >= 1 && g.wf() && g.spec_width() == pair.1,
                Err(GridConstructionError::ZeroSize) => pair.1 == 0,
                Err(GridConstructionError::VecSizeNotMultipleOfWidth) => pair.1 >= 1,
            },
            pair.0.obeys_prophetic_iter_laws() ==> match grid {
                Ok(g) => {
                    &&& pair.0.remaining().len() >= 1
                    &&& pair.0.remaining().len() % (pair.1 as nat) == 0
                    &&& g@ == pair.0.remaining()
                },
                Err(GridConstructionError::ZeroSize) => true,
                Err(GridConstructionError::VecSizeNotMultipleOfWidth) => pair.0.remaining().len()
                    == 0 || pair.0.remaining().len() % (pair.1 as nat) != 0,
            },
    {
        Grid::from_iter(pair.0, pair.1)
    }
}

/// What an iterator will yield is foretold, not computed from the iterator as a
/// value, so this trait's spec function cannot name the result. The contract of
/// `try_from` itself states it.
impl<I: Iterator> TryFromSpecImpl<(I, usize)> for Grid<I::Item> {
    open spec fn obeys_try_from_spec() -> bool {
        false
    }

    open spec fn try_from_spec(pair: (I, usize)) -> Result<Self, Self::Error> {
        arbitrary()
    }
}

impl<T> core::ops::Deref for Grid<T> {
    type Target = [T];

    /// The cells in row-major order.
    fn deref(&self) -> (cells: &[T])
        ensures
            cells@ == self@,
    {
        self.as_slice()
    }
}

impl<T> core::ops::DerefMut for Grid<T> {
    /// The cells in row-major order, to change them in place. The grid keeps its
    /// width.
    fn deref_mut(&mut self) -> (cells: &mut [T])
        ensures
            cells@ == old(self)@,
            final(self)@ == final(cells)@,
            final(self).spec_width() == old(self).spec_width(),
            old(self).wf() && final(cells)@.len() == cells@.len() ==> final(self).wf(),
    {
        self.as_mut_slice()
    }
}

impl<T> AsRef<[T]> for Grid<T> {
    /// The cells in row-major order.
    fn as_ref(&self) -> (cells: &[T])
        ensures
            cells@ == self@,
    {
        self.as_slice()
    }
}

impl<T> AsMut<[T]> for Grid<T> {
    /// The cells in row-major order, to change them in place. The grid keeps its
    /// width.
    fn as_mut(&mut self) -> (cells: &mut [T])
        ensures
            cells@ == old(self)@,
            final(self)@ == final(cells)@,
            final(self).spec_width() == old(self).spec_width(),
            old(self).wf() && final(cells)@.len() == cells@.len() ==> final(self).wf(),
    {
        self.as_mut_slice()
    }
}

impl<T> core::borrow::Borrow<[T]> for Grid<T> {
    /// The cells in row-major order.
    fn borrow(&self) -> (cells: &[T])
        ensures
            <[T] as View>::view(cells) == self@,
    {
        self.as_slice()
    }
}

impl<T> core::ops::Index<Coordinate> for Grid<T> {
    type Output = T;

    /// The cell at the given coordinate, which lies on the grid.
    fn index(&self, coordinate: Coordinate) -> (cell: &T)
        ensures
            self.spec_get(coordinate) == Some(*cell),
    {
        self.at(coordinate)
    }
}

impl<T> vstd::std_specs::core::IndexSpecImpl<Coordinate> for Grid<T> {
    open spec fn index_req(&self, coordinate: &Coordinate) -> bool {
        self.wf() && self.spec_encompasses(*coordinate)
    }
}

impl<T> Default for GridBuilder<T> {
    /// Creates a builder with no items and no hints.
    fn default() -> (builder: Self)
        ensures
            builder.wf(),
            builder.spec_items() == Seq::<T>::empty(),
            builder.spec_width() is None,
            builder.spec_height() is None,
    {
        GridBuilder::new(Vec::new())
    }
}

impl<T> core::ops::Deref for GridBuilder<T> {
    type Target = Vec<T>;

    /// The items gathered so far.
    fn deref(&self) -> (items: &Vec<T>)
        ensures
            items@ == self.spec_items(),
    {
        self.items()
    }
}

impl<T> core::ops::DerefMut for GridBuilder<T> {
    /// The items gathered so far, to change them in place. The hints stay as they
    /// are.
    fn deref_mut(&mut self) -> (items: &mut Vec<T>)
        ensures
            items@ == old(self).spec_items(),
            final(self).spec_items() == final(items)@,
            final(self).spec_width() == old(self).spec_width(),
            final(self).spec_height() == old(self).spec_height(),
    {
        self.items_mut()
    }
}

impl<T> AsRef<Vec<T>> for GridBuilder<T> {
    /// The items gathered so far.
    fn as_ref(&self) -> (items: &Vec<T>)
        ensures
            items@ == self.spec_items(),
    {
        self.items()
    }
}

impl<T> AsMut<Vec<T>> for GridBuilder<T> {
    /// The items gathered so far, to change them in place. The hints stay as they
    /// are.
    fn as_mut(&mut self) -> (items: &mut Vec<T>)
        ensures
            items@ == old(self).spec_items(),
            final(self).spec_items() == final(items)@,
            final(self).spec_width() == old(self).spec_width(),
            final(self).spec_height() == old(self).spec_height(),
    {
        self.items_mut()
    }
}

impl<T> From<Vec<T>> for GridBuilder<T> {
    /// Creates a builder with the respective items and no hints.
    fn from(items: Vec<T>) -> (builder: Self) {
        GridBuilder::new(items)
    }
}

impl<T> FromSpecImpl<Vec<T>> for GridBuilder<T> {
    open spec fn obeys_from_spec() -> bool {
        true
    }

    open spec fn from_spec(items: Vec<T>) -> Self {
        GridBuilder::spec_new(items)
    }
}

} // verus!
