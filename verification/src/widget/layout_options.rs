//! Per-child layout configuration, read only by the parent container.

use crate::widget::container::Alignment;
use vstd::prelude::*;

verus! {

/// Pure data carried by a widget and consulted by its parent: `grow` is a
/// non-negative weight controlling how leftover main-axis space is
/// apportioned (0 means fixed size, never receiving extra space), and
/// `alignment`, if present, overrides the parent's cross-axis alignment
/// for this one child.
#[derive(Clone, Copy, Debug, PartialEq, Eq, Structural)]
pub struct LayoutOptions {
    pub alignment: Option<Alignment>,
    pub grow: u32,
}

impl LayoutOptions {
    pub fn new() -> (r: Self)
        ensures
            r == (LayoutOptions { alignment: None::<Alignment>, grow: 0 }),
    {
        LayoutOptions { alignment: None, grow: 0 }
    }

    /// Replaces the alignment override.
    pub fn alignment(self, value: Option<Alignment>) -> (r: Self)
        ensures
            r == (LayoutOptions { alignment: value, ..self }),
    {
        LayoutOptions { alignment: value, ..self }
    }

    /// Replaces the growth weight.
    pub fn grow(self, value: u32) -> (r: Self)
        ensures
            r == (LayoutOptions { grow: value, ..self }),
    {
        LayoutOptions { grow: value, ..self }
    }
}

impl Default for LayoutOptions {
    fn default() -> (r: Self)
        ensures
            r == (LayoutOptions { alignment: None::<Alignment>, grow: 0 }),
    {
        LayoutOptions::new()
    }
}

} // verus!
