//! Plain geometric value types and the saturating pixel arithmetic used
//! throughout the layout engine.
//!
//! All dimensions are `u32` pixel counts and all coordinates are `i32`.
//! Arithmetic on them saturates instead of wrapping or panicking: a widget
//! that asks for more space than is available is clipped to the available
//! extent rather than causing a failure.

use vstd::prelude::*;

verus! {

/// The mathematical value of a `u32` sum, difference or product clamped
/// into the `u32` range.
pub open spec fn clamp_u32(x: int) -> int {
    if x > u32::MAX {
        u32::MAX as int
    } else if x < 0 {
        0
    } else {
        x
    }
}

/// The mathematical value of an `i32` sum clamped into the `i32` range.
pub open spec fn clamp_i32(x: int) -> int {
    if x > i32::MAX {
        i32::MAX as int
    } else if x < i32::MIN {
        i32::MIN as int
    } else {
        x
    }
}

/// Saturating `u32` multiplication.
pub fn mul_sat(a: u32, b: u32) -> (r: u32)
    ensures
        r == clamp_u32(a * b),
{
    match a.checked_mul(b) {
        Some(v) => v,
        None => u32::MAX,
    }
}

/// Moves a coordinate by a non-negative pixel amount, saturating at the
/// upper end of the coordinate range.
pub fn offset_coord(base: i32, amount: u32) -> (r: i32)
    ensures
        r == clamp_i32(base + amount),
{
    match base.checked_add_unsigned(amount) {
        Some(v) => v,
        None => i32::MAX,
    }
}

/// A pixel position on the canvas.
#[derive(Clone, Copy, Debug, PartialEq, Eq, Structural)]
pub struct Point {
    pub x: i32,
    pub y: i32,
}

impl Point {
    pub fn new(x: i32, y: i32) -> (r: Self)
        ensures
            r == (Point { x, y }),
    {
        Point { x, y }
    }

    pub fn zero() -> (r: Self)
        ensures
            r == (Point { x: 0, y: 0 }),
    {
        Point { x: 0, y: 0 }
    }
}

/// A pixel extent.
#[derive(Clone, Copy, Debug, PartialEq, Eq, Structural)]
pub struct Size {
    pub width: u32,
    pub height: u32,
}

impl Size {
    pub fn new(width: u32, height: u32) -> (r: Self)
        ensures
            r == (Size { width, height }),
    {
        Size { width, height }
    }

    pub fn zero() -> (r: Self)
        ensures
            r == (Size { width: 0, height: 0 }),
    {
        Size { width: 0, height: 0 }
    }

    /// The component-wise minimum of two extents.
    pub open spec fn spec_component_min(self, other: Size) -> Size {
        Size {
            width: if self.width < other.width {
                self.width
            } else {
                other.width
            },
            height: if self.height < other.height {
                self.height
            } else {
                other.height
            },
        }
    }

    #[verifier::when_used_as_spec(spec_component_min)]
    pub fn component_min(self, other: Size) -> (r: Size)
        ensures
            r == self.spec_component_min(other),
    {
        Size {
            width: if self.width < other.width {
                self.width
            } else {
                other.width
            },
            height: if self.height < other.height {
                self.height
            } else {
                other.height
            },
        }
    }
}

/// The rounding radii of the four corners of a box, one extent per corner.
#[derive(Clone, Copy, Debug, PartialEq, Eq, Structural)]
pub struct CornerRadii {
    pub top_left: Size,
    pub top_right: Size,
    pub bottom_right: Size,
    pub bottom_left: Size,
}

impl CornerRadii {
    /// Equal rounding on all four corners.
    pub fn new(radius: Size) -> (r: Self)
        ensures
            r == (CornerRadii {
                top_left: radius,
                top_right: radius,
                bottom_right: radius,
                bottom_left: radius,
            }),
    {
        CornerRadii {
            top_left: radius,
            top_right: radius,
            bottom_right: radius,
            bottom_left: radius,
        }
    }
}

} // verus!
