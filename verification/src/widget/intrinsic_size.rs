//! The content-driven size of a widget, with independently-optional
//! dimensions.

use crate::geometry::{clamp_u32, Size};
use crate::widget::axis_size::AxisSize;
use crate::widget::container::{Axis, Inset, Insets};
use vstd::prelude::*;

verus! {

/// The size a widget would occupy based on its own content. Either
/// dimension may be unknown ("depends on available space"); every
/// operation on the pair propagates "unknown" faithfully instead of
/// substituting a number, except where a caller explicitly resolves
/// against a default.
#[derive(Clone, Copy, Debug, PartialEq, Eq, Structural)]
pub struct IntrinsicSize {
    pub width: Option<u32>,
    pub height: Option<u32>,
}

impl IntrinsicSize {
    pub fn new(width: Option<u32>, height: Option<u32>) -> (r: Self)
        ensures
            r == (IntrinsicSize { width, height }),
    {
        IntrinsicSize { width, height }
    }

    pub open spec fn spec_none() -> IntrinsicSize {
        IntrinsicSize { width: None, height: None }
    }

    /// Both dimensions unknown.
    #[verifier::when_used_as_spec(spec_none)]
    pub fn none() -> (r: Self)
        ensures
            r == IntrinsicSize::spec_none(),
    {
        IntrinsicSize { width: None, height: None }
    }

    /// A concrete extent, if both dimensions are known.
    pub fn to_size(&self) -> (r: Option<Size>)
        ensures
            r == (match (self.width, self.height) {
                (Some(width), Some(height)) => Some(Size { width, height }),
                _ => None::<Size>,
            }),
    {
        match (self.width, self.height) {
            (Some(width), Some(height)) => Some(Size { width, height }),
            _ => None,
        }
    }

    /// The resolution of each unknown dimension to the matching component
    /// of `default`; known dimensions pass through unchanged.
    pub open spec fn spec_to_size_with_defaults(&self, default: Size) -> Size {
        Size {
            width: match self.width {
                Some(width) => width,
                None => default.width,
            },
            height: match self.height {
                Some(height) => height,
                None => default.height,
            },
        }
    }

    #[verifier::when_used_as_spec(spec_to_size_with_defaults)]
    pub fn to_size_with_defaults(&self, default: Size) -> (r: Size)
        ensures
            r == self.spec_to_size_with_defaults(default),
    {
        Size {
            width: match self.width {
                Some(width) => width,
                None => default.width,
            },
            height: match self.height {
                Some(height) => height,
                None => default.height,
            },
        }
    }
}

impl AxisSize<Option<u32>> for IntrinsicSize {
    open spec fn spec_for_axis(self, axis: Axis) -> Option<u32> {
        match axis {
            Axis::Horizontal => self.width,
            Axis::Vertical => self.height,
        }
    }

    open spec fn spec_add_to_axis(self, value: u32, axis: Axis) -> IntrinsicSize {
        match axis {
            Axis::Horizontal => IntrinsicSize {
                width: match self.width {
                    Some(width) => Some(clamp_u32(width + value) as u32),
                    None => None,
                },
                height: self.height,
            },
            Axis::Vertical => IntrinsicSize {
                width: self.width,
                height: match self.height {
                    Some(height) => Some(clamp_u32(height + value) as u32),
                    None => None,
                },
            },
        }
    }

    fn for_axis(&self, axis: Axis) -> (r: Option<u32>) {
        match axis {
            Axis::Horizontal => self.width,
            Axis::Vertical => self.height,
        }
    }

    /// Increments the named dimension only if it is already known; an
    /// unknown dimension stays unknown.
    fn add_to_axis(&mut self, value: u32, axis: Axis) {
        match axis {
            Axis::Horizontal => {
                self.width = match self.width {
                    Some(width) => Some(width.saturating_add(value)),
                    None => None,
                };
            },
            Axis::Vertical => {
                self.height = match self.height {
                    Some(height) => Some(height.saturating_add(value)),
                    None => None,
                };
            },
        }
    }
}

impl Inset for IntrinsicSize {
    open spec fn spec_inset(self, insets: Insets) -> IntrinsicSize {
        IntrinsicSize {
            width: match self.width {
                Some(width) => Some(clamp_u32(width - insets.left - insets.right) as u32),
                None => None,
            },
            height: match self.height {
                Some(height) => Some(clamp_u32(height - insets.top - insets.bottom) as u32),
                None => None,
            },
        }
    }

    open spec fn spec_outset(self, insets: Insets) -> IntrinsicSize {
        IntrinsicSize {
            width: match self.width {
                Some(width) => Some(clamp_u32(width + insets.left + insets.right) as u32),
                None => None,
            },
            height: match self.height {
                Some(height) => Some(clamp_u32(height + insets.top + insets.bottom) as u32),
                None => None,
            },
        }
    }

    /// Shrinks each known dimension by the matching margins, saturating
    /// at zero; unknown dimensions stay unknown.
    fn inset(&self, insets: Insets) -> (r: IntrinsicSize) {
        IntrinsicSize {
            width: match self.width {
                Some(width) => Some(
                    width.saturating_sub(insets.left).saturating_sub(insets.right),
                ),
                None => None,
            },
            height: match self.height {
                Some(height) => Some(
                    height.saturating_sub(insets.top).saturating_sub(insets.bottom),
                ),
                None => None,
            },
        }
    }

    /// Grows each known dimension by the matching margins; unknown
    /// dimensions stay unknown.
    fn outset(&self, insets: Insets) -> (r: IntrinsicSize) {
        IntrinsicSize {
            width: match self.width {
                Some(width) => Some(
                    width.saturating_add(insets.left).saturating_add(insets.right),
                ),
                None => None,
            },
            height: match self.height {
                Some(height) => Some(
                    height.saturating_add(insets.top).saturating_add(insets.bottom),
                ),
                None => None,
            },
        }
    }
}

impl From<Size> for IntrinsicSize {
    /// A concrete extent seen as an intrinsic size: both dimensions
    /// become known.
    fn from(size: Size) -> (r: Self) {
        IntrinsicSize { width: Some(size.width), height: Some(size.height) }
    }
}

impl vstd::std_specs::convert::FromSpecImpl<Size> for IntrinsicSize {
    open spec fn obeys_from_spec() -> bool {
        true
    }

    open spec fn from_spec(size: Size) -> Self {
        IntrinsicSize { width: Some(size.width), height: Some(size.height) }
    }
}

/// Growing an intrinsic size by some insets and then shrinking it by the
/// same insets gives the original value back, as long as no known
/// dimension saturates while growing.
pub proof fn lemma_outset_then_inset(size: IntrinsicSize, insets: Insets)
    requires
        size.width matches Some(width) ==> width + insets.left + insets.right <= u32::MAX,
        size.height matches Some(height) ==> height + insets.top + insets.bottom <= u32::MAX,
    ensures
        size.spec_outset(insets).spec_inset(insets) == size,
{
}

} // verus!
