//! A sizing policy for resolving one dimension against its context.

use vstd::prelude::*;

verus! {

/// How one dimension is chosen: the content's own extent, the whole
/// available extent, or an exact pixel value.
#[derive(Clone, Copy, Debug, PartialEq, Eq, Structural)]
pub enum Sizing {
    Fit,
    Fill,
    Exact(u32),
}

impl Sizing {
    /// Resolves this policy against a content extent and the maximum
    /// available extent.
    pub fn with(&self, content: u32, max: u32) -> (r: u32)
        ensures
            r == (match *self {
                Sizing::Fit => content,
                Sizing::Fill => max,
                Sizing::Exact(size) => size,
            }),
    {
        match self {
            Sizing::Fit => content,
            Sizing::Fill => max,
            Sizing::Exact(size) => *size,
        }
    }
}

impl Default for Sizing {
    fn default() -> (r: Self)
        ensures
            r == Sizing::Fit,
    {
        Sizing::Fit
    }
}

} // verus!
