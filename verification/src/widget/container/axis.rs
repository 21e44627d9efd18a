//! The axis along which a container stacks its children.

use vstd::prelude::*;

verus! {

/// Selects which of the two dimensions (width/height, x/y) a generic
/// operation applies to.
#[derive(Clone, Copy, Debug, PartialEq, Eq, Structural)]
pub enum Axis {
    Horizontal,
    Vertical,
}

impl Default for Axis {
    /// Containers stack their children vertically unless told otherwise.
    fn default() -> (r: Self)
        ensures
            r == Axis::Vertical,
    {
        Axis::Vertical
    }
}

impl Axis {
    /// The perpendicular axis, used to derive the cross axis from the
    /// main axis.
    pub open spec fn spec_opposite(&self) -> Axis {
        match self {
            Axis::Horizontal => Axis::Vertical,
            Axis::Vertical => Axis::Horizontal,
        }
    }

    #[verifier::when_used_as_spec(spec_opposite)]
    pub fn opposite(&self) -> (r: Axis)
        ensures
            r == self.spec_opposite(),
    {
        match self {
            Axis::Horizontal => Axis::Vertical,
            Axis::Vertical => Axis::Horizontal,
        }
    }
}

} // verus!
