//! Positions on a grid, their linear indices and their Moore neighbourhood.

use vstd::prelude::*;

use crate::arithmetic::lemma_split_index;

verus! {

/// Coordinate of a cell on a two-dimensional grid.
///
/// Any pair is a coordinate; whether it lies on a given grid is the grid's question.
#[derive(Clone, Copy, Debug, Eq, Hash, PartialEq, Structural)]
pub struct Coordinate {
    pub x: usize,
    pub y: usize,
}

/// The row-major index of column `x` in row `y` of a grid `width` cells wide.
pub open spec fn linear_index(x: int, y: int, width: int) -> int {
    y * width + x
}

/// The eight offsets `(dx, dy)` of the Moore neighbourhood: row by row from the row
/// above to the row below, each row from left to right, without the origin.
pub open spec fn neighbor_offsets() -> Seq<(int, int)> {
    seq![(-1, -1), (0, -1), (1, -1), (-1, 0), (1, 0), (-1, 1), (0, 1), (1, 1)]
}

impl Coordinate {
    /// The index that `as_index` yields: present iff the column lies within `width`
    /// and the index fits the machine word.
    pub open spec fn spec_index(self, width: usize) -> Option<usize> {
        if self.x < width && linear_index(self.x as int, self.y as int, width as int)
            <= usize::MAX {
            Some(linear_index(self.x as int, self.y as int, width as int) as usize)
        } else {
            None
        }
    }

    /// The coordinate that lies `dx` columns and `dy` rows from this one, absent where
    /// either component would leave the range of the machine word.
    pub open spec fn spec_shifted(self, dx: int, dy: int) -> Option<Coordinate> {
        if 0 <= self.x + dx <= usize::MAX && 0 <= self.y + dy <= usize::MAX {
            Some(Coordinate { x: (self.x + dx) as usize, y: (self.y + dy) as usize })
        } else {
            None
        }
    }

    /// The neighbours reached by the first `n` offsets, in the order of the offsets.
    pub open spec fn spec_neighbors_upto(self, n: nat) -> Seq<Coordinate>
        decreases n,
    {
        if n == 0 || n > neighbor_offsets().len() {
            Seq::empty()
        } else {
            let before = self.spec_neighbors_upto((n - 1) as nat);
            let (dx, dy) = neighbor_offsets()[n - 1];
            match self.spec_shifted(dx, dy) {
                Some(neighbor) => before.push(neighbor),
                None => before,
            }
        }
    }

    /// The Moore neighbourhood of this coordinate: every offset that stays within the
    /// range of the machine word, in the order of the offsets.
    pub open spec fn spec_neighbors(self) -> Seq<Coordinate> {
        self.spec_neighbors_upto(8)
    }

    /// The coordinate of the cell at `index` in a grid `width` cells wide.
    pub open spec fn spec_from_width_and_index(width: usize, index: usize) -> Coordinate {
        Coordinate { x: (index % width) as usize, y: (index / width) as usize }
    }

    /// Whether this coordinate comes before `other` in row-major order.
    pub open spec fn precedes(self, other: Coordinate) -> bool {
        self.y < other.y || (self.y == other.y && self.x < other.x)
    }

    /// Creates a new coordinate.
    pub fn new(x: usize, y: usize) -> (coordinate: Self)
        ensures
            coordinate.x == x,
            coordinate.y == y,
    {
        Self { x, y }
    }

    /// Creates the coordinate of the cell at `index` in a grid `width` cells wide.
    pub fn from_width_and_index(width: usize, index: usize) -> (coordinate: Self)
        requires
            width > 0,
        ensures
            coordinate == Self::spec_from_width_and_index(width, index),
    {
        proof {
            lemma_split_index(index as int, width as int);
        }
        let x: usize = index % width;
        let y: usize = (index - x) / width;
        Self { x, y }
    }

    /// Returns the x component.
    pub fn x(&self) -> (x: usize)
        ensures
            x == self.x,
    {
        self.x
    }

    /// Returns the y component.
    pub fn y(&self) -> (y: usize)
        ensures
            y == self.y,
    {
        self.y
    }

    /// Converts the coordinate into a linear index.
    ///
    /// There is none where the column lies beyond `width` or the index would overflow.
    pub fn as_index(&self, width: usize) -> (index: Option<usize>)
        ensures
            index == self.spec_index(width),
    {
        if self.x >= width {
            return None;
        }
        match self.y.checked_mul(width) {
            Some(row) => row.checked_add(self.x),
            None => None,
        }
    }

    /// Moves the coordinate by `dx` columns and `dy` rows with checked arithmetic.
    pub fn offset_by(&self, dx: isize, dy: isize) -> (shifted: Option<Coordinate>)
        ensures
            shifted == self.spec_shifted(dx as int, dy as int),
    {
        match self.x.checked_add_signed(dx) {
            Some(x) => match self.y.checked_add_signed(dy) {
                Some(y) => Some(Coordinate { x, y }),
                None => None,
            },
            None => None,
        }
    }

    /// Returns all potential neighboring coordinates, in the order of the offsets.
    pub fn neighbors(&self) -> (neighbors: Vec<Coordinate>)
        ensures
            neighbors@ == self.spec_neighbors(),
    {
        let mut neighbors: Vec<Coordinate> = Vec::new();
        let mut i: usize = 0;
        while i < 8
            invariant
                i <= 8,
                neighbors@ == self.spec_neighbors_upto(i as nat),
            decreases 8 - i,
        {
            let (dx, dy) = neighbor_offset(i);
            match self.offset_by(dx, dy) {
                Some(neighbor) => neighbors.push(neighbor),
                None => {},
            }
            i = i + 1;
        }
        neighbors
    }
}

/// The `i`-th offset of the Moore neighbourhood.
fn neighbor_offset(i: usize) -> (offset: (isize, isize))
    requires
        i < 8,
    ensures
        (offset.0 as int, offset.1 as int) == neighbor_offsets()[i as int],
{
    match i {
        0 => (-1, -1),
        1 => (0, -1),
        2 => (1, -1),
        3 => (-1, 0),
        4 => (1, 0),
        5 => (-1, 1),
        6 => (0, 1),
        _ => (1, 1),
    }
}

/// The coordinate of an index leads back to that index, whatever the width.
pub proof fn lemma_index_round_trip(width: usize, index: usize)
    requires
        width > 0,
    ensures
        Coordinate::spec_from_width_and_index(width, index).spec_index(width) == Some(index),
{
    lemma_split_index(index as int, width as int);
}

/// Whether the coordinates stand in row-major order, each before the next.
pub open spec fn row_major(coordinates: Seq<Coordinate>) -> bool {
    forall|i: int, j: int|
        0 <= i < j < coordinates.len() ==> (#[trigger] coordinates[i]).precedes(
            #[trigger] coordinates[j],
        )
}

/// The neighbours of a coordinate are listed in row-major order.
pub proof fn lemma_neighbors_row_major(coordinate: Coordinate)
    ensures
        row_major(coordinate.spec_neighbors()),
{
    reveal_with_fuel(Coordinate::spec_neighbors_upto, 9);
}

/// Leaving coordinates out of a row-major sequence keeps it row-major.
pub proof fn lemma_filter_row_major(coordinates: Seq<Coordinate>, keep: spec_fn(Coordinate) -> bool)
    requires
        row_major(coordinates),
    ensures
        row_major(coordinates.filter(keep)),
    decreases coordinates.len(),
{
    reveal(Seq::filter);
    if coordinates.len() > 0 {
        let front = coordinates.drop_last();
        let last = coordinates.last();
        assert(row_major(front)) by {
            assert forall|i: int, j: int| 0 <= i < j < front.len() implies (#[trigger] front[i]).precedes(
                #[trigger] front[j],
            ) by {
                assert(front[i] == coordinates[i] && front[j] == coordinates[j]);
            }
        }
        lemma_filter_row_major(front, keep);
        let kept = front.filter(keep);
        assert forall|i: int| 0 <= i < kept.len() implies (#[trigger] kept[i]).precedes(last) by {
            lemma_filter_member(front, keep, i);
            let k = choose|k: int| 0 <= k < front.len() && front[k] == kept[i];
            assert(coordinates[k].precedes(coordinates[coordinates.len() - 1]));
        }
    }
}

/// Each element that a filter keeps is an element of the sequence it was kept from.
proof fn lemma_filter_member(coordinates: Seq<Coordinate>, keep: spec_fn(Coordinate) -> bool, i: int)
    requires
        0 <= i < coordinates.filter(keep).len(),
    ensures
        exists|k: int| 0 <= k < coordinates.len() && coordinates[k] == coordinates.filter(keep)[i],
    decreases coordinates.len(),
{
    reveal(Seq::filter);
    if coordinates.len() > 0 {
        let front = coordinates.drop_last();
        if i < front.filter(keep).len() {
            lemma_filter_member(front, keep, i);
            let k = choose|k: int| 0 <= k < front.len() && front[k] == front.filter(keep)[i];
            assert(coordinates[k] == coordinates.filter(keep)[i]);
        } else {
            assert(coordinates[coordinates.len() - 1] == coordinates.filter(keep)[i]);
        }
    }
}

} // verus!
