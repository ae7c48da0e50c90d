//! Facts of arithmetic on which the grid's indices and dimensions rest.

use vstd::prelude::*;

use crate::coordinate::linear_index;

verus! {

/// An index splits into a column below `width` and a row, and those give it back.
pub proof fn lemma_split_index(index: int, width: int)
    requires
        0 <= index,
        0 < width,
    ensures
        0 <= index % width < width,
        index % width <= index,
        0 <= index / width <= index,
        (index - index % width) / width == index / width,
        linear_index(index % width, index / width, width) == index,
{
    vstd::arithmetic::div_mod::lemma_fundamental_div_mod(index, width);
    vstd::arithmetic::div_mod::lemma_mod_bound(index, width);
    vstd::arithmetic::div_mod::lemma_div_pos_is_pos(index, width);
    vstd::arithmetic::div_mod::lemma_div_is_ordered_by_denominator(index, 1, width);
    vstd::arithmetic::div_mod::lemma_div_basics(index);
    let q = index / width;
    assert(width * q == q * width) by (nonlinear_arith);
    vstd::arithmetic::div_mod::lemma_div_multiples_vanish(q, width);
}

/// A cell within the width and the height has its index within the buffer.
pub proof fn lemma_cell_in_buffer(x: int, y: int, width: int, height: int)
    requires
        0 <= x < width,
        0 <= y < height,
    ensures
        0 <= y * width,
        0 <= linear_index(x, y, width) < width * height,
{
    assert(0 <= y * width && y * width + x < width * height) by (nonlinear_arith)
        requires
            0 <= x < width,
            0 <= y < height,
    ;
}

/// A product of positive factors divides back into them.
pub proof fn lemma_product(width: int, height: int)
    requires
        width >= 1,
        height >= 1,
    ensures
        width * height >= 1,
        (width * height) % width == 0,
        (width * height) / width == height,
{
    assert(width * height >= 1) by (nonlinear_arith)
        requires
            width >= 1,
            height >= 1,
    ;
    assert(width * height == height * width) by (nonlinear_arith);
    vstd::arithmetic::div_mod::lemma_div_multiples_vanish(height, width);
    vstd::arithmetic::div_mod::lemma_mod_multiples_basic(height, width);
}

/// Where `height` divides `len` the quotient is a width of which `len` is a
/// multiple, with `height` rows.
pub proof fn lemma_quotient(len: int, height: int)
    requires
        1 <= height <= len,
        len % height == 0,
    ensures
        len / height >= 1,
        len % (len / height) == 0,
        len / (len / height) == height,
{
    let width = len / height;
    vstd::arithmetic::div_mod::lemma_fundamental_div_mod(len, height);
    assert(width >= 1) by (nonlinear_arith)
        requires
            len == height * width,
            len >= 1,
            height >= 1,
    ;
    vstd::arithmetic::div_mod::lemma_div_multiples_vanish(height, width);
    vstd::arithmetic::div_mod::lemma_mod_multiples_basic(height, width);
    assert(height * width == width * height) by (nonlinear_arith);
}

} // verus!
