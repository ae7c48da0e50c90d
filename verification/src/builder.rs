//! Building a grid from a flat sequence of items and a width, a height, or both.

use vstd::prelude::*;
use vstd::std_specs::iter::IteratorSpec;

use crate::arithmetic::{lemma_product, lemma_quotient};
use crate::errors::BuildError;
use crate::grid::{collect_items, Grid};

verus! {

/// A builder to construct a `Grid`.
///
/// It gathers the items and up to two hints, the width and the height. A hint, where
/// it is set, is at least one.
#[derive(Debug, PartialEq, Eq, Hash)]
pub struct GridBuilder<T> {
    items: Vec<T>,
    width: Option<usize>,
    height: Option<usize>,
}

/// How a build ends, by the number of items and the hints.
pub enum BuildOutcome {
    /// A grid of this width and height.
    Built { width: nat, height: nat },
    /// No hint is set.
    NeitherWidthNotHeightSet,
    /// Only the width is set, and it exceeds the number of items.
    TooWide,
    /// Only the height is set, and it exceeds the number of items.
    TooTall,
    /// Both hints are set, and their product is not the number of items.
    SizeDoesNotMatch,
    /// Only the width is set, and it does not divide the number of items.
    SizeNotMultipleOfWidth,
    /// Only the height is set, and it does not divide the number of items.
    SizeNotMultipleOfHeight,
}

/// The outcome of a build of `len` items under the given hints.
pub open spec fn build_outcome(len: nat, width: Option<usize>, height: Option<usize>) -> BuildOutcome {
    match (width, height) {
        (Some(w), Some(h)) => if w * h == len {
            BuildOutcome::Built { width: w as nat, height: h as nat }
        } else {
            BuildOutcome::SizeDoesNotMatch
        },
        (Some(w), None) => if w > len {
            BuildOutcome::TooWide
        } else if len % (w as nat) != 0 {
            BuildOutcome::SizeNotMultipleOfWidth
        } else {
            BuildOutcome::Built { width: w as nat, height: len / (w as nat) }
        },
        (None, Some(h)) => if h > len {
            BuildOutcome::TooTall
        } else if len % (h as nat) != 0 {
            BuildOutcome::SizeNotMultipleOfHeight
        } else {
            BuildOutcome::Built { width: len / (h as nat), height: h as nat }
        },
        (None, None) => BuildOutcome::NeitherWidthNotHeightSet,
    }
}

impl<T> GridBuilder<T> {
    /// The items gathered so far.
    pub closed spec fn spec_items(&self) -> Seq<T> {
        self.items@
    }

    /// The width hint, if one is set.
    pub closed spec fn spec_width(&self) -> Option<usize> {
        self.width
    }

    /// The height hint, if one is set.
    pub closed spec fn spec_height(&self) -> Option<usize> {
        self.height
    }

    /// The builder that holds the given items and no hints.
    pub closed spec fn spec_new(items: Vec<T>) -> Self {
        GridBuilder { items, width: None, height: None }
    }

    /// What every builder upholds: a hint that is set is at least one.
    #[verifier::type_invariant]
    pub open spec fn wf(&self) -> bool {
        &&& self.spec_width() matches Some(w) ==> w >= 1
        &&& self.spec_height() matches Some(h) ==> h >= 1
    }

    /// Create a new `GridBuilder` with the respective items and no hints.
    pub fn new(items: Vec<T>) -> (builder: Self)
        ensures
            builder == Self::spec_new(items),
            builder.wf(),
            builder.spec_items() == items@,
            builder.spec_width() is None,
            builder.spec_height() is None,
    {
        Self { items, width: None, height: None }
    }

    /// Set the desired width. A later call overwrites an earlier one.
    pub fn width(self, width: usize) -> (builder: Self)
        requires
            width >= 1,
        ensures
            builder.wf(),
            builder.spec_items() == self.spec_items(),
            builder.spec_width() == Some(width),
            builder.spec_height() == self.spec_height(),
    {
        proof {
            use_type_invariant(&self);
        }
        Self { items: self.items, width: Some(width), height: self.height }
    }

    /// Set the desired height. A later call overwrites an earlier one.
    pub fn height(self, height: usize) -> (builder: Self)
        requires
            height >= 1,
        ensures
            builder.wf(),
            builder.spec_items() == self.spec_items(),
            builder.spec_width() == self.spec_width(),
            builder.spec_height() == Some(height),
    {
        proof {
            use_type_invariant(&self);
        }
        Self { items: self.items, width: self.width, height: Some(height) }
    }

    /// Add the respective item to the builder.
    pub fn with_item(self, item: T) -> (builder: Self)
        ensures
            builder.wf(),
            builder.spec_items() == self.spec_items().push(item),
            builder.spec_width() == self.spec_width(),
            builder.spec_height() == self.spec_height(),
    {
        proof {
            use_type_invariant(&self);
        }
        let mut items = self.items;
        items.push(item);
        Self { items, width: self.width, height: self.height }
    }

    /// Extend the items with the given ones, in their order.
    pub fn extend_from_vec(self, more: Vec<T>) -> (builder: Self)
        ensures
            builder.wf(),
            builder.spec_items() == self.spec_items() + more@,
            builder.spec_width() == self.spec_width(),
            builder.spec_height() == self.spec_height(),
    {
        proof {
            use_type_invariant(&self);
        }
        let mut items = self.items;
        let mut more = more;
        items.append(&mut more);
        Self { items, width: self.width, height: self.height }
    }

    /// Extend the items with what the given iterator yields.
    ///
    /// The items gathered before stay in front and the hints stay as they are. Of an
    /// iterator that yields what it is foretold to yield, those items follow, in
    /// their order.
    pub fn extend<I: Iterator<Item = T>>(self, iter: I) -> (builder: Self)
        ensures
            builder.wf(),
            self.spec_items().is_prefix_of(builder.spec_items()),
            iter.obeys_prophetic_iter_laws() ==> builder.spec_items() == self.spec_items()
                + iter.remaining(),
            builder.spec_width() == self.spec_width(),
            builder.spec_height() == self.spec_height(),
    {
        self.extend_from_vec(collect_items(iter))
    }

    /// Returns the items gathered so far.
    pub fn items(&self) -> (items: &Vec<T>)
        ensures
            items@ == self.spec_items(),
    {
        &self.items
    }

    /// Returns the items gathered so far, to change them in place. The hints stay as
    /// they are.
    pub fn items_mut(&mut self) -> (items: &mut Vec<T>)
        ensures
            items@ == old(self).spec_items(),
            final(self).spec_items() == final(items)@,
            final(self).spec_width() == old(self).spec_width(),
            final(self).spec_height() == old(self).spec_height(),
    {
        proof {
            use_type_invariant(&*self);
        }
        reborrow(&mut self.items)
    }

    /// Build the grid.
    ///
    /// With both hints set their product must be the number of items. With one hint
    /// set it must not exceed the number of items and must divide it. A build that
    /// fails hands the items back in its error.
    pub fn build(self) -> (result: Result<Grid<T>, BuildError<T>>)
        ensures
            match build_outcome(self.spec_items().len(), self.spec_width(), self.spec_height()) {
                BuildOutcome::Built { width, height } => result matches Ok(grid) && grid.wf()
                    && grid@ == self.spec_items() && grid.spec_width() == width
                    && grid.spec_height() == height,
                BuildOutcome::NeitherWidthNotHeightSet => result matches Err(
                    BuildError::NeitherWidthNotHeightSet(items),
                ) && items@ == self.spec_items(),
                BuildOutcome::TooWide => result matches Err(BuildError::TooWide(items)) && items@
                    == self.spec_items(),
                BuildOutcome::TooTall => result matches Err(BuildError::TooTall(items)) && items@
                    == self.spec_items(),
                BuildOutcome::SizeDoesNotMatch => result matches Err(
                    BuildError::SizeDoesNotMatch(items),
                ) && items@ == self.spec_items(),
                BuildOutcome::SizeNotMultipleOfWidth => result matches Err(
                    BuildError::SizeNotMultipleOfWidth(items),
                ) && items@ == self.spec_items(),
                BuildOutcome::SizeNotMultipleOfHeight => result matches Err(
                    BuildError::SizeNotMultipleOfHeight(items),
                ) && items@ == self.spec_items(),
            },
    {
        proof {
            use_type_invariant(&self);
        }
        let len: usize = self.items.len();
        match (self.width, self.height) {
            (Some(width), Some(height)) => {
                match width.checked_mul(height) {
                    Some(size) => if size == len {
                        proof {
                            lemma_product(width as int, height as int);
                        }
                        Ok(Grid::new_unchecked(width, self.items))
                    } else {
                        Err(BuildError::SizeDoesNotMatch(self.items))
                    },
                    None => Err(BuildError::SizeDoesNotMatch(self.items)),
                }
            },
            (Some(width), None) => {
                if width > len {
                    Err(BuildError::TooWide(self.items))
                } else if len % width != 0 {
                    Err(BuildError::SizeNotMultipleOfWidth(self.items))
                } else {
                    Ok(Grid::new_unchecked(width, self.items))
                }
            },
            (None, Some(height)) => {
                if height > len {
                    Err(BuildError::TooTall(self.items))
                } else if len % height != 0 {
                    Err(BuildError::SizeNotMultipleOfHeight(self.items))
                } else {
                    let width: usize = len / height;
                    proof {
                        lemma_quotient(len as int, height as int);
                    }
                    Ok(Grid::new_unchecked(width, self.items))
                }
            },
            (None, None) => Err(BuildError::NeitherWidthNotHeightSet(self.items)),
        }
    }
}

/// Hands a mutable reference on as it is.
fn reborrow<T>(items: &mut Vec<T>) -> (same: &mut Vec<T>)
    ensures
        *same == *old(items),
        *final(items) == *final(same),
    no_unwind
{
    items
}

impl<T: Clone> Clone for GridBuilder<T> {
    /// Clones the builder item by item, with its hints.
    fn clone(&self) -> (copy: Self)
        ensures
            copy.wf(),
            copy.spec_width() == self.spec_width(),
            copy.spec_height() == self.spec_height(),
            copy.spec_items().len() == self.spec_items().len(),
            forall|i: int|
                0 <= i < self.spec_items().len() ==> cloned(
                    #[trigger] self.spec_items()[i],
                    copy.spec_items()[i],
                ),
    {
        proof {
            use_type_invariant(self);
        }
        Self { items: self.items.clone(), width: self.width, height: self.height }
    }
}

} // verus!
