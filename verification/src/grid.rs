//! The grid: a row-major buffer of fixed length together with its width.

use vstd::prelude::*;
use vstd::std_specs::cmp::PartialEqSpec;
use vstd::std_specs::iter::IteratorSpec;

use crate::arithmetic::{lemma_cell_in_buffer, lemma_product, lemma_split_index};
use crate::coordinate::{linear_index, Coordinate};
use crate::errors::GridConstructionError;

pub mod neighbors;

verus! {

/// A two-dimensional grid of arbitrary cell content.
///
/// The view of a grid is the sequence of its cells in row-major order.
#[derive(Debug, PartialEq, Eq, Hash)]
pub struct Grid<T> {
    width: usize,
    items: Vec<T>,
}

impl<T> View for Grid<T> {
    type V = Seq<T>;

    closed spec fn view(&self) -> Seq<T> {
        self.items@
    }
}

impl<T> Grid<T> {
    /// The number of columns.
    pub closed spec fn spec_width(&self) -> nat {
        self.width as nat
    }

    /// The number of rows, derived from the length of the buffer.
    pub open spec fn spec_height(&self) -> nat {
        self@.len() / self.spec_width()
    }

    /// What every grid upholds: it is at least one cell wide, it is not empty, and
    /// its length is a multiple of its width. The constructors establish it and the
    /// methods keep it.
    pub open spec fn wf(&self) -> bool {
        &&& self.spec_width() >= 1
        &&& self@.len() >= 1
        &&& self@.len() % self.spec_width() == 0
    }

    /// Whether `coordinate` names a cell of the grid.
    pub open spec fn spec_encompasses(&self, coordinate: Coordinate) -> bool {
        coordinate.x < self.spec_width() && coordinate.y < self.spec_height()
    }

    /// The cell at `coordinate`, absent where the coordinate lies off the grid.
    pub open spec fn spec_get(&self, coordinate: Coordinate) -> Option<T> {
        if self.spec_encompasses(coordinate) {
            Some(
                self@[linear_index(
                    coordinate.x as int,
                    coordinate.y as int,
                    self.spec_width() as int,
                )],
            )
        } else {
            None
        }
    }

    /// The index into the buffer of the cell at `coordinate`.
    pub open spec fn spec_index_of(&self, coordinate: Coordinate) -> int {
        linear_index(coordinate.x as int, coordinate.y as int, self.spec_width() as int)
    }

    /// A well-formed grid has `width * height` cells and at least one row, and its
    /// dimensions fit the machine word.
    pub proof fn lemma_dimensions(&self)
        requires
            self.wf(),
        ensures
            self.spec_height() >= 1,
            self.spec_width() * self.spec_height() == self@.len(),
            self.spec_width() <= self@.len() <= usize::MAX,
            self.spec_height() <= self@.len(),
    {
        assert(self@.len() == self.items.len());
        let len = self@.len() as int;
        let width = self.spec_width() as int;
        vstd::arithmetic::div_mod::lemma_fundamental_div_mod(len, width);
        vstd::arithmetic::div_mod::lemma_div_pos_is_pos(len, width);
        assert(len / width >= 1 && width <= len && len / width <= len) by (nonlinear_arith)
            requires
                len == width * (len / width),
                len >= 1,
                width >= 1,
                len / width >= 0,
        ;
    }

    /// On a well-formed grid a coordinate has an index into the buffer exactly when
    /// its column and its row both lie on the grid.
    pub proof fn lemma_index_on_grid(&self, coordinate: Coordinate)
        requires
            self.wf(),
        ensures
            self.spec_encompasses(coordinate) <==> coordinate.x < self.spec_width()
                && linear_index(
                coordinate.x as int,
                coordinate.y as int,
                self.spec_width() as int,
            ) < self@.len(),
    {
        self.lemma_dimensions();
        let x = coordinate.x as int;
        let y = coordinate.y as int;
        let width = self.spec_width() as int;
        let height = self.spec_height() as int;
        if x < width {
            if y < height {
                assert(y * width + x < width * height) by (nonlinear_arith)
                    requires
                        0 <= x < width,
                        0 <= y < height,
                ;
            } else {
                assert(y * width + x >= width * height) by (nonlinear_arith)
                    requires
                        0 <= x,
                        0 < width,
                        y >= height,
                ;
            }
        }
    }

    /// The coordinate that `enumerate` pairs with the cell at an index lies on the
    /// grid and leads back to that cell.
    pub proof fn lemma_coordinate_of_index(&self, index: int)
        requires
            self.wf(),
            0 <= index < self@.len(),
        ensures
            self.spec_encompasses(self.spec_coordinate_of(index)),
            self.spec_index_of(self.spec_coordinate_of(index)) == index,
            self.spec_get(self.spec_coordinate_of(index)) == Some(self@[index]),
    {
        self.lemma_dimensions();
        let width = self.spec_width() as int;
        lemma_split_index(index, width);
        self.lemma_index_on_grid(self.spec_coordinate_of(index));
    }

    /// A coordinate on the grid is the coordinate of its index.
    pub proof fn lemma_index_of_coordinate(&self, coordinate: Coordinate)
        requires
            self.wf(),
            self.spec_encompasses(coordinate),
        ensures
            0 <= self.spec_index_of(coordinate) < self@.len(),
            self.spec_coordinate_of(self.spec_index_of(coordinate)) == coordinate,
    {
        self.lemma_index_on_grid(coordinate);
        let width = self.spec_width() as int;
        let x = coordinate.x as int;
        let y = coordinate.y as int;
        assert(0 <= y * width) by (nonlinear_arith)
            requires
                0 <= y,
                0 < width,
        ;
        vstd::arithmetic::div_mod::lemma_fundamental_div_mod_converse(y * width + x, width, y, x);
    }

    /// Returns a new grid of `width` by `height` cells, each made by one call of
    /// `initializer`, in index order.
    ///
    /// There is no grid where a dimension is zero or the size does not fit the
    /// machine word.
    pub fn try_new(width: usize, height: usize, initializer: impl Fn() -> T) -> (grid: Option<Self>)
        requires
            call_requires(initializer, ()),
        ensures
            grid.is_some() <==> width >= 1 && height >= 1 && width * height <= usize::MAX,
            grid matches Some(g) ==> {
                &&& g.wf()
                &&& g.spec_width() == width
                &&& g.spec_height() == height
                &&& g@.len() == width * height
                &&& forall|i: int| 0 <= i < g@.len() ==> call_ensures(initializer, (), #[trigger] g@[i])
            },
    {
        if width == 0 || height == 0 {
            return None;
        }
        let size: usize = match width.checked_mul(height) {
            Some(size) => size,
            None => {
                return None;
            },
        };
        let mut items: Vec<T> = Vec::with_capacity(size);
        let mut i: usize = 0;
        while i < size
            invariant
                i <= size,
                items@.len() == i,
                call_requires(initializer, ()),
                forall|j: int| 0 <= j < items@.len() ==> call_ensures(initializer, (), #[trigger] items@[j]),
            decreases size - i,
        {
            items.push(initializer());
            i = i + 1;
        }
        proof {
            lemma_product(width as int, height as int);
        }
        Some(Self { width, items })
    }

    /// Returns a new grid of `width` by `height` cells, each made by one call of
    /// `initializer`, in index order.
    pub fn new(width: usize, height: usize, initializer: impl Fn() -> T) -> (grid: Self)
        requires
            width >= 1,
            height >= 1,
            width * height <= usize::MAX,
            call_requires(initializer, ()),
        ensures
            grid.wf(),
            grid.spec_width() == width,
            grid.spec_height() == height,
            grid@.len() == width * height,
            forall|i: int| 0 <= i < grid@.len() ==> call_ensures(initializer, (), #[trigger] grid@[i]),
    {
        Self::try_new(width, height, initializer).unwrap()
    }

    /// Creates a grid from its buffer and its width without checking them.
    ///
    /// The caller guarantees that `items.len()` is a positive multiple of `width`.
    pub(crate) fn new_unchecked(width: usize, items: Vec<T>) -> (grid: Self)
        requires
            width >= 1,
            items@.len() >= 1,
            items@.len() % (width as nat) == 0,
        ensures
            grid.wf(),
            grid.spec_width() == width,
            grid@ == items@,
    {
        Self { width, items }
    }

    /// Creates a grid `width` cells wide from the items in row-major order.
    ///
    /// This succeeds where the number of items is a positive multiple of `width`.
    pub fn from_vec(items: Vec<T>, width: usize) -> (grid: Result<Self, GridConstructionError>)
        ensures
            match grid {
                Ok(g) => {
                    &&& width >= 1
                    &&& items@.len() >= 1
                    &&& items@.len() % (width as nat) == 0
                    &&& g.wf()
                    &&& g.spec_width() == width
                    &&& g@ == items@
                },
                Err(GridConstructionError::ZeroSize) => width == 0,
                Err(GridConstructionError::VecSizeNotMultipleOfWidth) => width >= 1 && (items@.len()
                    == 0 || items@.len() % (width as nat) != 0),
            },
    {
        if width == 0 {
            Err(GridConstructionError::ZeroSize)
        } else if items.len() == 0 || items.len() % width != 0 {
            Err(GridConstructionError::VecSizeNotMultipleOfWidth)
        } else {
            Ok(Self::new_unchecked(width, items))
        }
    }

    /// Creates a grid `width` cells wide from the items that `iterator` yields, in
    /// row-major order.
    ///
    /// A width of zero is refused. Of an iterator that yields what it is foretold to
    /// yield, the grid holds those items, and there is a grid exactly where their
    /// number is a positive multiple of `width`.
    pub fn from_iter<I: Iterator<Item = T>>(iterator: I, width: usize) -> (grid: Result<
        Self,
        GridConstructionError,
    >)
        ensures
            match grid {
                Ok(g) => width >= 1 && g.wf() && g.spec_width() == width,
                Err(GridConstructionError::ZeroSize) => width == 0,
                Err(GridConstructionError::VecSizeNotMultipleOfWidth) => width >= 1,
            },
            iterator.obeys_prophetic_iter_laws() ==> match grid {
                Ok(g) => {
                    &&& iterator.remaining().len() >= 1
                    &&& iterator.remaining().len() % (width as nat) == 0
                    &&& g@ == iterator.remaining()
                },
                Err(GridConstructionError::ZeroSize) => true,
                Err(GridConstructionError::VecSizeNotMultipleOfWidth) => iterator.remaining().len()
                    == 0 || iterator.remaining().len() % (width as nat) != 0,
            },
    {
        Self::from_vec(collect_items(iterator), width)
    }

    /// Returns the width of the grid.
    pub fn width(&self) -> (width: usize)
        ensures
            width == self.spec_width(),
    {
        self.width
    }

    /// Returns the height of the grid.
    pub fn height(&self) -> (height: usize)
        requires
            self.wf(),
        ensures
            height == self.spec_height(),
            height >= 1,
    {
        proof {
            self.lemma_dimensions();
        }
        self.items.len() / self.width
    }

    /// Returns the size of the grid, the number of its cells.
    ///
    /// This is equal to `grid.width() * grid.height()`.
    pub fn size(&self) -> (size: usize)
        requires
            self.wf(),
        ensures
            size == self@.len(),
            size == self.spec_width() * self.spec_height(),
            size >= 1,
    {
        proof {
            self.lemma_dimensions();
        }
        self.items.len()
    }

    /// Determines whether the grid upholds what every grid upholds. Every grid that
    /// this library hands out does; the test is for callers that cannot prove it.
    pub fn is_well_formed(&self) -> (well_formed: bool)
        ensures
            well_formed == self.wf(),
    {
        self.width >= 1 && self.items.len() >= 1 && self.items.len() % self.width == 0
    }

    /// Returns true, if the grid is empty, else false. No well-formed grid is empty.
    pub fn is_empty(&self) -> (empty: bool)
        ensures
            empty == (self@.len() == 0),
            self.wf() ==> !empty,
    {
        self.items.len() == 0
    }

    /// Returns the cells in row-major order as a slice.
    pub fn as_slice(&self) -> (cells: &[T])
        ensures
            cells@ == self@,
    {
        self.items.as_slice()
    }

    /// Returns the cells in row-major order as a mutable slice. The grid keeps its
    /// width, and what is written to the slice is written to the grid.
    pub fn as_mut_slice(&mut self) -> (cells: &mut [T])
        ensures
            cells@ == old(self)@,
            final(self)@ == final(cells)@,
            final(self).spec_width() == old(self).spec_width(),
            old(self).wf() && final(cells)@.len() == cells@.len() ==> final(self).wf(),
    {
        self.items.as_mut_slice()
    }

    /// Returns the cell at the given coordinate, which lies on the grid.
    pub fn at(&self, coordinate: Coordinate) -> (cell: &T)
        requires
            self.wf(),
            self.spec_encompasses(coordinate),
        ensures
            self.spec_get(coordinate) == Some(*cell),
    {
        self.get(coordinate).unwrap()
    }

    /// Returns a reference to the cell at the given coordinate, if it lies on the grid.
    pub fn get(&self, coordinate: Coordinate) -> (cell: Option<&T>)
        requires
            self.wf(),
        ensures
            cell.is_some() <==> self.spec_encompasses(coordinate),
            cell matches Some(content) ==> self.spec_get(coordinate) == Some(*content),
    {
        proof {
            self.lemma_index_on_grid(coordinate);
            assert(self@.len() == self.items.len());
        }
        match coordinate.as_index(self.width) {
            Some(index) => if index < self.items.len() {
                Some(&self.items[index])
            } else {
                None
            },
            None => None,
        }
    }

    /// Returns a mutable reference to the cell at the given coordinate, if it lies on
    /// the grid. Writing through it changes that cell and nothing else.
    pub fn get_mut(&mut self, coordinate: Coordinate) -> (cell: Option<&mut T>)
        requires
            old(self).wf(),
        ensures
            cell.is_some() <==> old(self).spec_encompasses(coordinate),
            final(self).wf(),
            final(self).spec_width() == old(self).spec_width(),
            final(self)@.len() == old(self)@.len(),
            match cell {
                Some(content) => {
                    &&& old(self).spec_get(coordinate) == Some(*content)
                    &&& final(self)@ == old(self)@.update(
                        linear_index(
                            coordinate.x as int,
                            coordinate.y as int,
                            old(self).spec_width() as int,
                        ),
                        *final(content),
                    )
                },
                None => final(self)@ == old(self)@,
            },
    {
        proof {
            self.lemma_index_on_grid(coordinate);
            assert(self@.len() == self.items.len());
        }
        match coordinate.as_index(self.width) {
            Some(index) => if index < self.items.len() {
                Some(&mut self.items[index])
            } else {
                None
            },
            None => None,
        }
    }

    /// Determines whether the given coordinate is on the grid.
    pub fn encompasses(&self, coordinate: Coordinate) -> (on_grid: bool)
        requires
            self.wf(),
        ensures
            on_grid == self.spec_encompasses(coordinate),
    {
        coordinate.x() < self.width() && coordinate.y() < self.height()
    }

    /// The coordinate of the cell at `index` of the buffer.
    pub open spec fn spec_coordinate_of(&self, index: int) -> Coordinate {
        Coordinate {
            x: (index % self.spec_width() as int) as usize,
            y: (index / self.spec_width() as int) as usize,
        }
    }

    /// Whether `cells` are the grid's cells in row-major order.
    pub open spec fn spec_is_cells(&self, cells: Seq<&T>) -> bool {
        &&& cells.len() == self@.len()
        &&& forall|i: int| 0 <= i < cells.len() ==> *#[trigger] cells[i] == self@[i]
    }

    /// Whether `rows` are the grid's rows from top to bottom, each from left to right.
    pub open spec fn spec_is_rows(&self, rows: Seq<Vec<&T>>) -> bool {
        &&& rows.len() == self.spec_height()
        &&& forall|y: int| 0 <= y < rows.len() ==> (#[trigger] rows[y])@.len() == self.spec_width()
        &&& forall|y: int, x: int|
            0 <= y < rows.len() && 0 <= x < self.spec_width() ==> *#[trigger] rows[y]@[x]
                == self@[linear_index(x, y, self.spec_width() as int)]
    }

    /// Two walks over the cells of one grid yield the same sequence.
    pub proof fn lemma_iter_repeatable(&self, first: Seq<&T>, second: Seq<&T>)
        requires
            self.spec_is_cells(first),
            self.spec_is_cells(second),
        ensures
            first == second,
    {
    }

    /// Two walks over the rows of one grid yield the same rows with the same cells.
    pub proof fn lemma_rows_repeatable(&self, first: Seq<Vec<&T>>, second: Seq<Vec<&T>>)
        requires
            self.spec_is_rows(first),
            self.spec_is_rows(second),
        ensures
            first.len() == second.len(),
            forall|y: int| 0 <= y < first.len() ==> (#[trigger] first[y])@ == second[y]@,
    {
        assert forall|y: int| 0 <= y < first.len() implies (#[trigger] first[y])@ == second[y]@ by {
            assert forall|x: int| 0 <= x < first[y]@.len() implies first[y]@[x] == second[y]@[x] by {
                let cell = self@[linear_index(x, y, self.spec_width() as int)];
                assert(*first[y]@[x] == cell && *second[y]@[x] == cell);
            }
        }
    }

    /// Returns references to the grid's cells in row-major order.
    pub fn iter(&self) -> (cells: Vec<&T>)
        ensures
            self.spec_is_cells(cells@),
    {
        let mut cells: Vec<&T> = Vec::with_capacity(self.items.len());
        let mut i: usize = 0;
        while i < self.items.len()
            invariant
                i <= self.items@.len(),
                cells@.len() == i,
                forall|j: int| 0 <= j < i ==> *#[trigger] cells@[j] == self.items@[j],
            decreases self.items@.len() - i,
        {
            cells.push(&self.items[i]);
            i = i + 1;
        }
        cells
    }

    /// Returns mutable references to the grid's cells in row-major order. Writing
    /// through one changes that cell and nothing else.
    pub fn iter_mut(&mut self) -> (cells: Vec<&mut T>)
        requires
            old(self).wf(),
        ensures
            final(self).wf(),
            final(self).spec_width() == old(self).spec_width(),
            final(self)@.len() == old(self)@.len(),
            cells@.len() == old(self)@.len(),
            forall|i: int|
                0 <= i < cells@.len() ==> *#[trigger] cells@[i] == old(self)@[i] && final(self)@[i]
                    == *final(cells@[i]),
    {
        let ghost before = self@;
        let ghost after = final(self)@;
        let mut cells: Vec<&mut T> = Vec::new();
        let mut rest: &mut [T] = self.items.as_mut_slice();
        while rest.len() > 0
            invariant
                cells@.len() + rest@.len() == before.len(),
                rest@ == before.subrange(cells@.len() as int, before.len() as int),
                forall|j: int| 0 <= j < cells@.len() ==> *#[trigger] cells@[j] == before[j],
                after == Seq::new(cells@.len(), |j: int| *final(cells@[j])) + final(rest)@,
            decreases rest@.len(),
        {
            let (head, tail) = rest.split_at_mut(1);
            cells.push(&mut head[0]);
            rest = tail;
        }
        cells
    }

    /// Returns each cell with its coordinate, in row-major order.
    pub fn enumerate(&self) -> (cells: Vec<(Coordinate, &T)>)
        requires
            self.wf(),
        ensures
            cells@.len() == self@.len(),
            forall|i: int|
                0 <= i < cells@.len() ==> (#[trigger] cells@[i]).0 == self.spec_coordinate_of(i)
                    && *cells@[i].1 == self@[i],
    {
        let mut cells: Vec<(Coordinate, &T)> = Vec::with_capacity(self.items.len());
        let mut i: usize = 0;
        while i < self.items.len()
            invariant
                self.width >= 1,
                i <= self.items@.len(),
                cells@.len() == i,
                forall|j: int|
                    0 <= j < i ==> (#[trigger] cells@[j]).0 == self.spec_coordinate_of(j)
                        && *cells@[j].1 == self.items@[j],
            decreases self.items@.len() - i,
        {
            cells.push((Coordinate::from_width_and_index(self.width, i), &self.items[i]));
            i = i + 1;
        }
        cells
    }

    /// Returns each cell with its coordinate, in row-major order, by mutable
    /// reference. Writing through one changes that cell and nothing else.
    pub fn enumerate_mut(&mut self) -> (cells: Vec<(Coordinate, &mut T)>)
        requires
            old(self).wf(),
        ensures
            final(self).wf(),
            final(self).spec_width() == old(self).spec_width(),
            final(self)@.len() == old(self)@.len(),
            cells@.len() == old(self)@.len(),
            forall|i: int|
                0 <= i < cells@.len() ==> (#[trigger] cells@[i]).0 == old(self).spec_coordinate_of(i)
                    && *cells@[i].1 == old(self)@[i] && final(self)@[i] == *final(cells@[i].1),
    {
        let ghost before = self@;
        let ghost after = final(self)@;
        let ghost grid = *self;
        let width: usize = self.width;
        assert(before.len() == self.items.len());
        let mut cells: Vec<(Coordinate, &mut T)> = Vec::new();
        let mut rest: &mut [T] = self.items.as_mut_slice();
        let mut i: usize = 0;
        while rest.len() > 0
            invariant
                width >= 1,
                width == grid.spec_width(),
                before.len() <= usize::MAX,
                cells@.len() == i,
                i + rest@.len() == before.len(),
                rest@ == before.subrange(i as int, before.len() as int),
                forall|j: int|
                    0 <= j < i ==> (#[trigger] cells@[j]).0 == grid.spec_coordinate_of(j)
                        && *cells@[j].1 == before[j],
                after == Seq::new(cells@.len(), |j: int| *final(cells@[j].1)) + final(rest)@,
            decreases rest@.len(),
        {
            let (head, tail) = rest.split_at_mut(1);
            cells.push((Coordinate::from_width_and_index(width, i), &mut head[0]));
            rest = tail;
            i = i + 1;
        }
        cells
    }

    /// Returns the rows of the grid from top to bottom, each from left to right.
    pub fn rows(&self) -> (rows: Vec<Vec<&T>>)
        requires
            self.wf(),
        ensures
            self.spec_is_rows(rows@),
    {
        proof {
            self.lemma_dimensions();
        }
        let width: usize = self.width;
        let height: usize = self.items.len() / width;
        let mut rows: Vec<Vec<&T>> = Vec::with_capacity(height);
        let mut y: usize = 0;
        while y < height
            invariant
                self.wf(),
                width == self.width,
                height == self.spec_height(),
                width * height == self.items.len(),
                y <= height,
                rows@.len() == y,
                forall|r: int| 0 <= r < y ==> (#[trigger] rows@[r])@.len() == width,
                forall|r: int, x: int|
                    0 <= r < y && 0 <= x < width ==> *#[trigger] rows@[r]@[x] == self.items@[linear_index(
                        x,
                        r,
                        width as int,
                    )],
            decreases height - y,
        {
            let mut row: Vec<&T> = Vec::with_capacity(width);
            let mut x: usize = 0;
            while x < width
                invariant
                    width == self.width,
                    width * height == self.items.len(),
                    y < height,
                    x <= width,
                    row@.len() == x,
                    forall|c: int|
                        0 <= c < x ==> *#[trigger] row@[c] == self.items@[linear_index(
                            c,
                            y as int,
                            width as int,
                        )],
                decreases width - x,
            {
                proof {
                    lemma_cell_in_buffer(x as int, y as int, width as int, height as int);
                }
                row.push(&self.items[y * width + x]);
                x = x + 1;
            }
            rows.push(row);
            y = y + 1;
        }
        rows
    }
}

impl<T: Clone> Clone for Grid<T> {
    /// Clones the grid cell by cell.
    fn clone(&self) -> (copy: Self)
        ensures
            copy.spec_width() == self.spec_width(),
            copy@.len() == self@.len(),
            self.wf() ==> copy.wf(),
            forall|i: int| 0 <= i < self@.len() ==> cloned(#[trigger] self@[i], copy@[i]),
    {
        Self { width: self.width, items: self.items.clone() }
    }
}

impl<T: Default> Grid<T> {
    /// Returns a new grid of `width` by `height` cells, each the default of its type.
    pub fn new_default(width: usize, height: usize) -> (grid: Self)
        requires
            width >= 1,
            height >= 1,
            width * height <= usize::MAX,
        ensures
            grid.wf(),
            grid.spec_width() == width,
            grid.spec_height() == height,
            grid@.len() == width * height,
            forall|i: int| 0 <= i < grid@.len() ==> call_ensures(T::default, (), #[trigger] grid@[i]),
    {
        Self::new(width, height, T::default)
    }
}

impl<T: PartialEq> Grid<T> {
    /// Determines whether the grid contains the given element.
    pub fn contains(&self, element: &T) -> (found: bool)
        ensures
            T::obeys_eq_spec() ==> found == exists|i: int|
                0 <= i < self@.len() && (#[trigger] self@[i]).eq_spec(element),
    {
        let mut i: usize = 0;
        while i < self.items.len()
            invariant
                i <= self.items@.len(),
                T::obeys_eq_spec() ==> forall|j: int|
                    0 <= j < i ==> !(#[trigger] self.items@[j]).eq_spec(element),
            decreases self.items@.len() - i,
        {
            if self.items[i] == *element {
                assert(T::obeys_eq_spec() ==> self@[i as int].eq_spec(element));
                return true;
            }
            i = i + 1;
        }
        false
    }
}

/// Collects what an iterator yields with `Iterator::collect`.
///
/// Not proved: that `collect` into a vector gathers the items that `next` yields, in
/// their order, until it yields none. The claim is made of iterators that yield what
/// they are foretold to yield, and says that the vector then holds those items.
#[verifier::external_body]
pub(crate) fn collect_items<I: Iterator>(iterator: I) -> (items: Vec<I::Item>)
    ensures
        iterator.obeys_prophetic_iter_laws() ==> items@ == iterator.remaining(),
{
    iterator.collect()
}

} // verus!
