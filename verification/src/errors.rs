//! The errors of building a grid.

use vstd::prelude::*;

verus! {

/// An error that can occur when constructing a grid from a buffer and a width.
#[derive(Clone, Copy, Debug, PartialEq, Eq, Structural)]
pub enum GridConstructionError {
    /// The width is zero.
    ZeroSize,
    /// The number of items is not a positive multiple of the grid's width.
    VecSizeNotMultipleOfWidth,
}

impl GridConstructionError {
    /// The text that describes each error.
    pub open spec fn spec_message(self) -> Seq<char> {
        match self {
            Self::ZeroSize => "width must not be zero"@,
            Self::VecSizeNotMultipleOfWidth => "vec size must be a multiple of width"@,
        }
    }

    /// Describes the error in words.
    pub fn message(&self) -> (message: &'static str)
        ensures
            message@ == self.spec_message(),
    {
        match self {
            Self::ZeroSize => "width must not be zero",
            Self::VecSizeNotMultipleOfWidth => "vec size must be a multiple of width",
        }
    }
}

/// Errors that can occur when building a grid. Each hands back the rejected items.
#[derive(Clone, Debug, PartialEq, Eq)]
pub enum BuildError<T> {
    /// Neither `width` nor `height` have been set.
    NeitherWidthNotHeightSet(Vec<T>),
    /// The specified width is larger than the amount of items.
    TooWide(Vec<T>),
    /// The specified height is larger than the amount of items.
    TooTall(Vec<T>),
    /// The desired grid size (`width` * `height`) does not match the amount of items.
    SizeDoesNotMatch(Vec<T>),
    /// The amount of items is not a multiple of the specified `width`.
    SizeNotMultipleOfWidth(Vec<T>),
    /// The amount of items is not a multiple of the specified `height`.
    SizeNotMultipleOfHeight(Vec<T>),
}

impl<T> BuildError<T> {
    /// The items that the error carries.
    pub open spec fn spec_items(self) -> Seq<T> {
        match self {
            Self::NeitherWidthNotHeightSet(items) => items@,
            Self::TooWide(items) => items@,
            Self::TooTall(items) => items@,
            Self::SizeDoesNotMatch(items) => items@,
            Self::SizeNotMultipleOfWidth(items) => items@,
            Self::SizeNotMultipleOfHeight(items) => items@,
        }
    }

    /// The text that describes each error.
    pub open spec fn spec_message(self) -> Seq<char> {
        match self {
            Self::NeitherWidthNotHeightSet(_) => "neither a width nor a height was set"@,
            Self::TooWide(_) => "the specified width exceeds the amount of items"@,
            Self::TooTall(_) => "the specified height exceeds the amount of items"@,
            Self::SizeDoesNotMatch(_) => "the desired size does not match the amount of items"@,
            Self::SizeNotMultipleOfWidth(_) => "the desired width is not a multiple of the amount of items"@,
            Self::SizeNotMultipleOfHeight(_) => "the desired height is not a multiple of the amount of items"@,
        }
    }

    /// Returns the items that were stored in the builder.
    pub fn into_items(self) -> (items: Vec<T>)
        ensures
            items@ == self.spec_items(),
    {
        match self {
            Self::NeitherWidthNotHeightSet(items) => items,
            Self::TooWide(items) => items,
            Self::TooTall(items) => items,
            Self::SizeDoesNotMatch(items) => items,
            Self::SizeNotMultipleOfWidth(items) => items,
            Self::SizeNotMultipleOfHeight(items) => items,
        }
    }

    /// Describes the error in words.
    pub fn message(&self) -> (message: &'static str)
        ensures
            message@ == self.spec_message(),
    {
        match self {
            Self::NeitherWidthNotHeightSet(_) => "neither a width nor a height was set",
            Self::TooWide(_) => "the specified width exceeds the amount of items",
            Self::TooTall(_) => "the specified height exceeds the amount of items",
            Self::SizeDoesNotMatch(_) => "the desired size does not match the amount of items",
            Self::SizeNotMultipleOfWidth(_) => "the desired width is not a multiple of the amount of items",
            Self::SizeNotMultipleOfHeight(_) => "the desired height is not a multiple of the amount of items",
        }
    }
}

} // verus!
