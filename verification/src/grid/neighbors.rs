//! The neighbours of a cell: the cells around it that lie on the grid.

use vstd::prelude::*;

use crate::coordinate::{
    lemma_filter_row_major, lemma_neighbors_row_major, linear_index, neighbor_offsets, row_major,
    Coordinate,
};
use crate::grid::Grid;

verus! {

impl<T> Grid<T> {
    /// The neighbours of `coordinate` that lie on the grid, in the order of the
    /// offsets.
    pub open spec fn spec_neighbor_coordinates(&self, coordinate: Coordinate) -> Seq<Coordinate> {
        coordinate.spec_neighbors().filter(|neighbor: Coordinate| self.spec_encompasses(neighbor))
    }

    /// How many of the first `n` offsets lead from `coordinate` to a cell of the grid.
    pub open spec fn spec_neighbor_count_upto(&self, coordinate: Coordinate, n: nat) -> nat
        decreases n,
    {
        if n == 0 || n > neighbor_offsets().len() {
            0
        } else {
            let before = self.spec_neighbor_count_upto(coordinate, (n - 1) as nat);
            let (dx, dy) = neighbor_offsets()[n - 1];
            match coordinate.spec_shifted(dx, dy) {
                Some(neighbor) => if self.spec_encompasses(neighbor) {
                    before + 1
                } else {
                    before
                },
                None => before,
            }
        }
    }

    /// The neighbours of a coordinate that lie on the grid are distinct cells, listed
    /// in the order in which the grid holds them: each has a greater index than the
    /// one before.
    pub proof fn lemma_neighbors_in_grid_order(&self, coordinate: Coordinate)
        requires
            self.wf(),
        ensures
            row_major(self.spec_neighbor_coordinates(coordinate)),
            forall|i: int|
                0 <= i < self.spec_neighbor_coordinates(coordinate).len() ==> self.spec_encompasses(
                    #[trigger] self.spec_neighbor_coordinates(coordinate)[i],
                ),
            forall|i: int, j: int|
                0 <= i < j < self.spec_neighbor_coordinates(coordinate).len() ==> self.spec_index_of(
                    #[trigger] self.spec_neighbor_coordinates(coordinate)[i],
                ) < self.spec_index_of(#[trigger] self.spec_neighbor_coordinates(coordinate)[j]),
    {
        let on_grid = |neighbor: Coordinate| self.spec_encompasses(neighbor);
        let neighbors = self.spec_neighbor_coordinates(coordinate);
        lemma_neighbors_row_major(coordinate);
        lemma_filter_row_major(coordinate.spec_neighbors(), on_grid);
        assert forall|i: int| 0 <= i < neighbors.len() implies self.spec_encompasses(
            #[trigger] neighbors[i],
        ) by {
            coordinate.spec_neighbors().lemma_filter_pred(on_grid, i);
        }
        assert forall|i: int, j: int| 0 <= i < j < neighbors.len() implies self.spec_index_of(
            #[trigger] neighbors[i],
        ) < self.spec_index_of(#[trigger] neighbors[j]) by {
            lemma_precedes_index(neighbors[i], neighbors[j], self.spec_width() as int);
        }
    }
    /// The neighbours on the grid are as many as the offsets that lead to a cell.
    proof fn lemma_neighbor_count_upto(&self, coordinate: Coordinate, n: nat)
        requires
            n <= 8,
        ensures
            coordinate.spec_neighbors_upto(n).filter(
                |neighbor: Coordinate| self.spec_encompasses(neighbor),
            ).len() == self.spec_neighbor_count_upto(coordinate, n),
        decreases n,
    {
        let on_grid = |neighbor: Coordinate| self.spec_encompasses(neighbor);
        if n == 0 {
            reveal(Seq::filter);
        } else {
            self.lemma_neighbor_count_upto(coordinate, (n - 1) as nat);
            let before = coordinate.spec_neighbors_upto((n - 1) as nat);
            let (dx, dy) = neighbor_offsets()[n - 1];
            match coordinate.spec_shifted(dx, dy) {
                Some(neighbor) => {
                    before.lemma_filter_push(neighbor, on_grid);
                },
                None => {},
            }
        }
    }

    /// On a grid at least three cells wide and three cells high, a cell in the interior
    /// has eight neighbours, a cell on an edge but in no corner has five, and a cell in
    /// a corner has three.
    pub proof fn lemma_neighbor_count(&self, coordinate: Coordinate)
        requires
            self.wf(),
            self.spec_width() >= 3,
            self.spec_height() >= 3,
            self.spec_encompasses(coordinate),
        ensures
            self.spec_neighbor_coordinates(coordinate).len() == ({
                let at_side = coordinate.x == 0 || coordinate.x == self.spec_width() - 1;
                let at_end = coordinate.y == 0 || coordinate.y == self.spec_height() - 1;
                if at_side && at_end {
                    3nat
                } else if at_side || at_end {
                    5nat
                } else {
                    8nat
                }
            }),
    {
        self.lemma_dimensions();
        self.lemma_neighbor_count_upto(coordinate, 8);
        reveal_with_fuel(Grid::spec_neighbor_count_upto, 9);
    }

    /// Returns the coordinates that are neighbors of the given coordinate and lie on
    /// the grid.
    pub fn neighbor_coordinates(&self, coordinate: Coordinate) -> (neighbors: Vec<Coordinate>)
        requires
            self.wf(),
        ensures
            neighbors@ == self.spec_neighbor_coordinates(coordinate),
    {
        let candidates = coordinate.neighbors();
        let ghost on_grid = |neighbor: Coordinate| self.spec_encompasses(neighbor);
        let mut neighbors: Vec<Coordinate> = Vec::new();
        let mut i: usize = 0;
        while i < candidates.len()
            invariant
                self.wf(),
                i <= candidates@.len(),
                on_grid == (|neighbor: Coordinate| self.spec_encompasses(neighbor)),
                neighbors@ == candidates@.take(i as int).filter(on_grid),
            decreases candidates@.len() - i,
        {
            let candidate = candidates[i];
            proof {
                candidates@.lemma_take_succ_push(i as int);
                candidates@.take(i as int).lemma_filter_push(candidate, on_grid);
            }
            if self.encompasses(candidate) {
                neighbors.push(candidate);
            }
            i = i + 1;
        }
        assert(candidates@.take(candidates@.len() as int) == candidates@);
        neighbors
    }

    /// Returns the neighbors of the given coordinate that lie on the grid, each with a
    /// reference to its cell.
    pub fn neighbors(&self, coordinate: Coordinate) -> (cells: Vec<(Coordinate, &T)>)
        requires
            self.wf(),
        ensures
            cells@.len() == self.spec_neighbor_coordinates(coordinate).len(),
            forall|i: int|
                0 <= i < cells@.len() ==> (#[trigger] cells@[i]).0 == self.spec_neighbor_coordinates(
                    coordinate,
                )[i] && self.spec_get(cells@[i].0) == Some(*cells@[i].1),
    {
        self.neighbors_internal(self.neighbor_coordinates(coordinate))
    }

    /// Pairs each of the given coordinates with a reference to its cell.
    fn neighbors_internal(&self, neighbors: Vec<Coordinate>) -> (cells: Vec<(Coordinate, &T)>)
        requires
            self.wf(),
            forall|i: int| 0 <= i < neighbors@.len() ==> self.spec_encompasses(#[trigger] neighbors@[i]),
        ensures
            cells@.len() == neighbors@.len(),
            forall|i: int|
                0 <= i < cells@.len() ==> (#[trigger] cells@[i]).0 == neighbors@[i] && self.spec_get(
                    cells@[i].0,
                ) == Some(*cells@[i].1),
    {
        let mut cells: Vec<(Coordinate, &T)> = Vec::with_capacity(neighbors.len());
        let mut i: usize = 0;
        while i < neighbors.len()
            invariant
                self.wf(),
                i <= neighbors@.len(),
                cells@.len() == i,
                forall|j: int|
                    0 <= j < neighbors@.len() ==> self.spec_encompasses(#[trigger] neighbors@[j]),
                forall|j: int|
                    0 <= j < i ==> (#[trigger] cells@[j]).0 == neighbors@[j] && self.spec_get(
                        cells@[j].0,
                    ) == Some(*cells@[j].1),
            decreases neighbors@.len() - i,
        {
            let neighbor = neighbors[i];
            let cell = self.get(neighbor).unwrap();
            cells.push((neighbor, cell));
            i = i + 1;
        }
        cells
    }

    /// Returns the neighbors of the given coordinate that lie on the grid, each with a
    /// mutable reference to its cell. Writing through one changes that cell; every
    /// other cell stays as it is.
    pub fn neighbors_mut(&mut self, coordinate: Coordinate) -> (cells: Vec<(Coordinate, &mut T)>)
        requires
            old(self).wf(),
        ensures
            final(self).wf(),
            final(self).spec_width() == old(self).spec_width(),
            final(self)@.len() == old(self)@.len(),
            cells@.len() == old(self).spec_neighbor_coordinates(coordinate).len(),
            forall|k: int|
                0 <= k < cells@.len() ==> (#[trigger] cells@[k]).0 == old(
                    self,
                ).spec_neighbor_coordinates(coordinate)[k] && old(self).spec_get(cells@[k].0) == Some(
                    *cells@[k].1,
                ) && final(self).spec_get(cells@[k].0) == Some(*final(cells@[k].1)),
            forall|i: int|
                0 <= i < old(self)@.len() && !old(self).spec_neighbor_coordinates(coordinate).contains(
                    old(self).spec_coordinate_of(i),
                ) ==> final(self)@[i] == old(self)@[i],
    {
        let neighbors = self.neighbor_coordinates(coordinate);
        proof {
            self.lemma_neighbors_in_grid_order(coordinate);
        }
        self.neighbors_mut_internal(neighbors)
    }

    /// Pairs each of the given coordinates with a mutable reference to its cell. The
    /// coordinates lie on the grid, in the order in which the grid holds their cells.
    fn neighbors_mut_internal(&mut self, neighbors: Vec<Coordinate>) -> (cells: Vec<
        (Coordinate, &mut T),
    >)
        requires
            old(self).wf(),
            forall|m: int|
                0 <= m < neighbors@.len() ==> old(self).spec_encompasses(#[trigger] neighbors@[m]),
            forall|m: int, n: int|
                0 <= m < n < neighbors@.len() ==> old(self).spec_index_of(#[trigger] neighbors@[m])
                    < old(self).spec_index_of(#[trigger] neighbors@[n]),
        ensures
            final(self).wf(),
            final(self).spec_width() == old(self).spec_width(),
            final(self)@.len() == old(self)@.len(),
            cells@.len() == neighbors@.len(),
            forall|k: int|
                0 <= k < cells@.len() ==> (#[trigger] cells@[k]).0 == neighbors@[k] && old(
                    self,
                ).spec_get(cells@[k].0) == Some(*cells@[k].1) && final(self).spec_get(cells@[k].0)
                    == Some(*final(cells@[k].1)),
            forall|i: int|
                0 <= i < old(self)@.len() && !neighbors@.contains(old(self).spec_coordinate_of(i))
                    ==> final(self)@[i] == old(self)@[i],
    {
        let ghost grid = *self;
        let ghost before = self@;
        let ghost grid_after = *final(self);
        let ghost after = grid_after@;
        let width: usize = self.width;
        proof {
            grid.lemma_dimensions();
            assert forall|m: int| 0 <= m < neighbors@.len() implies 0 <= grid.spec_index_of(
                #[trigger] neighbors@[m],
            ) < before.len() by {
                grid.lemma_index_of_coordinate(neighbors@[m]);
            }
        }
        let mut cells: Vec<(Coordinate, &mut T)> = Vec::new();
        let mut rest: &mut [T] = self.items.as_mut_slice();
        let mut i: usize = 0;
        let mut k: usize = 0;
        while rest.len() > 0
            invariant
                grid.wf(),
                width == grid.spec_width(),
                before == grid@,
                before.len() <= usize::MAX,
                i + rest@.len() == before.len(),
                rest@ == before.subrange(i as int, before.len() as int),
                k <= neighbors@.len(),
                cells@.len() == k,
                i <= after.len(),
                after.subrange(i as int, after.len() as int) == final(rest)@,
                forall|m: int|
                    0 <= m < neighbors@.len() ==> grid.spec_encompasses(#[trigger] neighbors@[m])
                        && 0 <= grid.spec_index_of(neighbors@[m]) < before.len(),
                forall|m: int, n: int|
                    0 <= m < n < neighbors@.len() ==> grid.spec_index_of(#[trigger] neighbors@[m])
                        < grid.spec_index_of(#[trigger] neighbors@[n]),
                forall|m: int| 0 <= m < k ==> grid.spec_index_of(#[trigger] neighbors@[m]) < i,
                forall|m: int|
                    k <= m < neighbors@.len() ==> grid.spec_index_of(#[trigger] neighbors@[m]) >= i,
                forall|m: int|
                    0 <= m < k ==> (#[trigger] cells@[m]).0 == neighbors@[m] && *cells@[m].1
                        == before[grid.spec_index_of(neighbors@[m])] && after[grid.spec_index_of(
                        neighbors@[m],
                    )] == *final(cells@[m].1),
                forall|j: int|
                    0 <= j < i && (forall|m: int|
                        0 <= m < neighbors@.len() ==> grid.spec_index_of(#[trigger] neighbors@[m])
                            != j) ==> #[trigger] after[j] == before[j],
            decreases rest@.len(),
        {
            let ghost rest_after = final(rest)@;
            let (head, tail) = rest.split_at_mut(1);
            let ghost tail_after = final(tail)@;
            let here = k < neighbors.len() && match neighbors[k].as_index(width) {
                Some(index) => index == i,
                None => false,
            };
            if here {
                cells.push((neighbors[k], &mut head[0]));
                k = k + 1;
            }
            assert(rest_after.len() == 1 + tail_after.len());
            assert(after.subrange(i as int, after.len() as int)[0] == after[i as int]);
            assert(after.subrange(i + 1, after.len() as int) =~= tail_after) by {
                let from_here = after.subrange(i as int, after.len() as int);
                assert forall|j: int| 0 <= j < tail_after.len() implies after[i + 1 + j]
                    == tail_after[j] by {
                    assert(from_here[j + 1] == rest_after[j + 1]);
                }
            }
            rest = tail;
            i = i + 1;
        }
        proof {
            assert(k == neighbors@.len()) by {
                if k < neighbors@.len() {
                    assert(grid.spec_index_of(neighbors@[k as int]) >= i);
                }
            }
            assert forall|j: int|
                0 <= j < before.len() && !neighbors@.contains(
                    grid.spec_coordinate_of(j),
                ) implies after[j] == before[j] by {
                assert forall|m: int| 0 <= m < neighbors@.len() implies grid.spec_index_of(
                    #[trigger] neighbors@[m],
                ) != j by {
                    if grid.spec_index_of(neighbors@[m]) == j {
                        grid.lemma_index_of_coordinate(neighbors@[m]);
                    }
                }
            }
        }
        cells
    }
}

/// Within a row-major buffer the coordinate that comes first has the lesser index.
proof fn lemma_precedes_index(first: Coordinate, second: Coordinate, width: int)
    requires
        first.precedes(second),
        first.x < width,
        second.x < width,
    ensures
        linear_index(first.x as int, first.y as int, width) < linear_index(
            second.x as int,
            second.y as int,
            width,
        ),
{
    let (x1, y1) = (first.x as int, first.y as int);
    let (x2, y2) = (second.x as int, second.y as int);
    if y1 < y2 {
        assert(y1 * width + x1 < y2 * width + x2) by (nonlinear_arith)
            requires
                y1 < y2,
                0 <= x1 < width,
                0 <= x2,
        ;
    }
}

} // verus!
