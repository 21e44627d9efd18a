//! The drawing-target capability the engine paints through.

use crate::geometry::{CornerRadii, Point, Size};
use crate::widget::container::Border;
use vstd::prelude::*;

verus! {

/// A pixel surface that can fill and stroke styled rectangles.
///
/// Implementations live outside the verified library — a display driver,
/// or a recording surface in tests — so nothing is promised of a draw
/// call beyond its signature: it may fail with the surface's own error
/// type, and the engine propagates the first failure unchanged without
/// painting further.
pub trait Canvas {
    /// The surface's color type.
    type Color: Copy;

    /// The surface's uniform failure type.
    type Error;

    /// Paints a rectangle of extent `size` at `origin`: filled with
    /// `background_color` if present, stroked with the border's color
    /// and width if present, and with rounded corners if radii are
    /// given.
    fn draw_box(
        &mut self,
        origin: Point,
        size: Size,
        background_color: Option<Self::Color>,
        border: Option<Border<Self::Color>>,
        corner_radii: Option<CornerRadii>,
    ) -> Result<(), Self::Error>;
}

} // verus!
