//! Four independent pixel margins and the shrink/grow operations they
//! induce on size-like values.

use crate::geometry::{clamp_u32, Size};
use vstd::prelude::*;

verus! {

/// Non-negative pixel margins on the four edges of a box, used for a
/// container's margin, padding and border-derived insets.
#[derive(Clone, Copy, Debug, PartialEq, Eq, Structural)]
pub struct Insets {
    pub left: u32,
    pub right: u32,
    pub top: u32,
    pub bottom: u32,
}

impl Insets {
    pub open spec fn spec_none() -> Insets {
        Insets { left: 0, right: 0, top: 0, bottom: 0 }
    }

    /// Zero margin on every edge.
    #[verifier::when_used_as_spec(spec_none)]
    pub fn none() -> (r: Self)
        ensures
            r == Insets::spec_none(),
    {
        Insets { left: 0, right: 0, top: 0, bottom: 0 }
    }

    pub open spec fn spec_all(value: u32) -> Insets {
        Insets { left: value, right: value, top: value, bottom: value }
    }

    /// The same margin on every edge.
    #[verifier::when_used_as_spec(spec_all)]
    pub fn all(value: u32) -> (r: Self)
        ensures
            r == Insets::spec_all(value),
    {
        Insets { left: value, right: value, top: value, bottom: value }
    }

    /// A margin on the left and right edges only.
    pub fn horizontal(value: u32) -> (r: Self)
        ensures
            r == (Insets { left: value, right: value, top: 0, bottom: 0 }),
    {
        Insets { left: value, right: value, top: 0, bottom: 0 }
    }

    /// A margin on the top and bottom edges only.
    pub fn vertical(value: u32) -> (r: Self)
        ensures
            r == (Insets { left: 0, right: 0, top: value, bottom: value }),
    {
        Insets { left: 0, right: 0, top: value, bottom: value }
    }
}

impl Default for Insets {
    fn default() -> (r: Self)
        ensures
            r == Insets::spec_none(),
    {
        Insets::none()
    }
}

/// Shrinking and growing a size-like value by [`Insets`], applied per
/// axis. `inset` saturates at zero rather than underflowing; `outset`
/// saturates at the top of the pixel range. The two compose as inverses
/// wherever neither saturates.
pub trait Inset: Sized {
    /// The value shrunk by the margins.
    spec fn spec_inset(self, insets: Insets) -> Self;

    /// The value grown by the margins.
    spec fn spec_outset(self, insets: Insets) -> Self;

    fn inset(&self, insets: Insets) -> (r: Self)
        ensures
            r == self.spec_inset(insets),
    ;

    fn outset(&self, insets: Insets) -> (r: Self)
        ensures
            r == self.spec_outset(insets),
    ;
}

impl Inset for Size {
    open spec fn spec_inset(self, insets: Insets) -> Size {
        Size {
            width: clamp_u32(self.width - insets.left - insets.right) as u32,
            height: clamp_u32(self.height - insets.top - insets.bottom) as u32,
        }
    }

    open spec fn spec_outset(self, insets: Insets) -> Size {
        Size {
            width: clamp_u32(self.width + insets.left + insets.right) as u32,
            height: clamp_u32(self.height + insets.top + insets.bottom) as u32,
        }
    }

    fn inset(&self, insets: Insets) -> (r: Size) {
        Size {
            width: self.width.saturating_sub(insets.left).saturating_sub(insets.right),
            height: self.height.saturating_sub(insets.top).saturating_sub(insets.bottom),
        }
    }

    fn outset(&self, insets: Insets) -> (r: Size) {
        Size {
            width: self.width.saturating_add(insets.left).saturating_add(insets.right),
            height: self.height.saturating_add(insets.top).saturating_add(insets.bottom),
        }
    }
}

/// Growing and then shrinking an extent by the same margins gives the
/// original extent back, as long as the grow step does not saturate.
pub proof fn lemma_size_outset_then_inset(size: Size, insets: Insets)
    requires
        size.width + insets.left + insets.right <= u32::MAX,
        size.height + insets.top + insets.bottom <= u32::MAX,
    ensures
        size.spec_outset(insets).spec_inset(insets) == size,
{
}

} // verus!
