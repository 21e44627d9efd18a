//! Axis-generic access to the two dimensions of a size-like value.

use crate::geometry::{clamp_u32, Size};
use crate::widget::container::Axis;
use vstd::prelude::*;

verus! {

/// Reads or grows the dimension of a two-dimensional value along a chosen
/// axis, so the layout algorithm can be written once and work for either
/// stacking direction.
pub trait AxisSize<T>: Sized {
    /// The dimension along `axis`.
    spec fn spec_for_axis(self, axis: Axis) -> T;

    /// The value with `value` added to the dimension along `axis`.
    spec fn spec_add_to_axis(self, value: u32, axis: Axis) -> Self;

    fn for_axis(&self, axis: Axis) -> (r: T)
        ensures
            r == self.spec_for_axis(axis),
    ;

    fn add_to_axis(&mut self, value: u32, axis: Axis)
        ensures
            *final(self) == old(self).spec_add_to_axis(value, axis),
    ;
}

impl AxisSize<u32> for Size {
    open spec fn spec_for_axis(self, axis: Axis) -> u32 {
        match axis {
            Axis::Horizontal => self.width,
            Axis::Vertical => self.height,
        }
    }

    open spec fn spec_add_to_axis(self, value: u32, axis: Axis) -> Size {
        match axis {
            Axis::Horizontal => Size {
                width: clamp_u32(self.width + value) as u32,
                height: self.height,
            },
            Axis::Vertical => Size {
                width: self.width,
                height: clamp_u32(self.height + value) as u32,
            },
        }
    }

    fn for_axis(&self, axis: Axis) -> (r: u32) {
        match axis {
            Axis::Horizontal => self.width,
            Axis::Vertical => self.height,
        }
    }

    fn add_to_axis(&mut self, value: u32, axis: Axis) {
        match axis {
            Axis::Horizontal => self.width = self.width.saturating_add(value),
            Axis::Vertical => self.height = self.height.saturating_add(value),
        }
    }
}

} // verus!
