//! A container's stroked border.

use vstd::prelude::*;

verus! {

/// A border stroke: a color and a non-negative pixel width. A width of 0
/// (or no border at all) means "no border"; a present border's width
/// participates both in the decoration stroke and in the content inset,
/// split into an outer and an inner half.
#[derive(Clone, Copy, Debug, PartialEq, Eq)]
pub struct Border<Color> {
    pub color: Color,
    pub width: u32,
}

} // verus!
