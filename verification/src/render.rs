//! Rendering a grid as text: the cells of a row separated by tabs, the rows by
//! newlines, with no newline at the end.

use vstd::prelude::*;
use vstd::string::to_string_from_display_ensures;

use crate::coordinate::Coordinate;
use crate::grid::Grid;

verus! {

/// What stands before the text of the cell at `index`: nothing before the first
/// cell, a newline before the first cell of every later row, a tab before any other.
pub open spec fn spec_separator_before(index: int, width: int) -> Seq<char> {
    if index == 0 {
        Seq::empty()
    } else if index % width == 0 {
        seq!['\n']
    } else {
        seq!['\t']
    }
}

/// The rendering of the first `n` texts of a grid `width` cells wide.
pub open spec fn spec_render_upto(texts: Seq<String>, width: int, n: nat) -> Seq<char>
    decreases n,
{
    if n == 0 {
        Seq::empty()
    } else {
        spec_render_upto(texts, width, (n - 1) as nat) + spec_separator_before(n - 1, width)
            + texts[n - 1]@
    }
}

/// The rendering of the texts of a grid `width` cells wide.
pub open spec fn spec_render(texts: Seq<String>, width: int) -> Seq<char> {
    spec_render_upto(texts, width, texts.len())
}

/// Renders the texts of the cells of a grid `width` cells wide, given in row-major
/// order.
pub fn render_texts(texts: &Vec<String>, width: usize) -> (text: String)
    requires
        width >= 1,
    ensures
        text@ == spec_render(texts@, width as int),
{
    let mut text = String::new();
    let mut i: usize = 0;
    while i < texts.len()
        invariant
            width >= 1,
            i <= texts@.len(),
            text@ == spec_render_upto(texts@, width as int, i as nat),
        decreases texts@.len() - i,
    {
        proof {
            reveal_strlit("\n");
            reveal_strlit("\t");
        }
        if i > 0 {
            if i % width == 0 {
                text.append("\n");
            } else {
                text.append("\t");
            }
        }
        text.append(texts[i].as_str());
        i = i + 1;
    }
    text
}

impl Coordinate {
    /// Renders the coordinate as its two components around an `x`, each as its type
    /// displays it.
    pub fn render(&self) -> (text: String)
        ensures
            exists|x: String, y: String|
                {
                    &&& to_string_from_display_ensures(&self.x, x)
                    &&& to_string_from_display_ensures(&self.y, y)
                    &&& text@ == x@ + "x"@ + y@
                },
    {
        let x = self.x.to_string();
        let y = self.y.to_string();
        let mut text = String::new();
        text.append(x.as_str());
        text.append("x");
        text.append(y.as_str());
        text
    }
}

impl<T: core::fmt::Display> Grid<T> {
    /// Renders the grid: each cell as its type displays it, the cells of a row
    /// separated by tabs and the rows by newlines.
    pub fn render(&self) -> (text: String)
        requires
            self.wf(),
        ensures
            exists|texts: Seq<String>|
                {
                    &&& texts.len() == self@.len()
                    &&& forall|i: int|
                        0 <= i < texts.len() ==> to_string_from_display_ensures(
                            &self@[i],
                            #[trigger] texts[i],
                        )
                    &&& text@ == spec_render(texts, self.spec_width() as int)
                },
    {
        let cells = self.iter();
        let mut texts: Vec<String> = Vec::with_capacity(cells.len());
        let mut i: usize = 0;
        while i < cells.len()
            invariant
                i <= cells@.len(),
                texts@.len() == i,
                self.spec_is_cells(cells@),
                forall|j: int|
                    0 <= j < i ==> to_string_from_display_ensures(&self@[j], #[trigger] texts@[j]),
            decreases cells@.len() - i,
        {
            texts.push(cells[i].to_string());
            i = i + 1;
        }
        render_texts(&texts, self.width())
    }
}

} // verus!
