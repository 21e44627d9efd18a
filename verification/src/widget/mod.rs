//! Widgets: the capability every tree node satisfies, and the composite
//! container that lays its children out.

pub mod container;

mod axis_size;
mod intrinsic_size;
mod layout_options;

pub use axis_size::AxisSize;
pub use intrinsic_size::lemma_outset_then_inset;
pub use intrinsic_size::IntrinsicSize;
pub use layout_options::LayoutOptions;

use crate::canvas::Canvas;
use crate::geometry::{Point, Size};
use container::Container;
use vstd::prelude::*;

verus! {

/// The capability every node in a widget tree satisfies: report the size
/// its own content wants, report the layout options its parent should
/// consult, and paint itself into exactly the rectangle it is given.
///
/// Leaf widgets — text, images — implement this outside the verified
/// library by forwarding to their rendering primitives; nothing is
/// assumed of such an implementation. [`Container`] implements it with
/// the verified layout engine.
pub trait Widget<C: Canvas>: Sized {
    /// The size this widget would occupy based on its own content;
    /// either dimension may be unknown.
    fn intrinsic_size(&self) -> IntrinsicSize;

    /// The layout options this widget reports to its parent; without an
    /// override, a widget has a fixed size and never receives extra
    /// space.
    fn layout_options(&self) -> LayoutOptions {
        LayoutOptions::new()
    }

    /// Paints the widget into the rectangle of extent `size` at
    /// `origin`, clipping to it; a failure of the drawing target is
    /// handed back unchanged.
    fn draw(&self, canvas: &mut C, origin: Point, size: Size) -> Result<(), C::Error>;
}

/// One node of a widget tree: either a nested [`Container`] or a leaf
/// widget. A container owns its children outright through this type, so
/// a tree is acyclic by construction.
pub enum Node<C: Canvas, L: Widget<C>> {
    Container(Container<C, L>),
    Leaf(L),
}

impl<C: Canvas, L: Widget<C>> Node<C, L> {
    /// The node's intrinsic size: a container's aggregated size, or
    /// whatever a leaf reports.
    pub fn intrinsic_size(&self) -> (r: IntrinsicSize)
        ensures
            self matches Node::Container(c) ==> (c.width is Some ==> r.width == c.width),
            self matches Node::Container(c) ==> (c.height is Some ==> r.height == c.height),
        decreases self, 0int,
    {
        match self {
            Node::Container(container) => {
                proof {
                    assert(decreases_to!(*self => *container));
                }
                container.intrinsic_size()
            },
            Node::Leaf(leaf) => leaf.intrinsic_size(),
        }
    }

    /// The layout options the node reports to its parent.
    pub fn layout_options(&self) -> (r: LayoutOptions)
        ensures
            self matches Node::Container(c) ==> r == c.layout_options,
    {
        match self {
            Node::Container(container) => container.layout_options,
            Node::Leaf(leaf) => leaf.layout_options(),
        }
    }

    /// Paints the node into the given rectangle.
    pub fn draw(&self, canvas: &mut C, origin: Point, size: Size) -> (r: Result<(), C::Error>)
        decreases self, 0int,
    {
        match self {
            Node::Container(container) => {
                proof {
                    assert(decreases_to!(*self => *container));
                }
                container.draw(canvas, origin, size)
            },
            Node::Leaf(leaf) => leaf.draw(canvas, origin, size),
        }
    }
}

} // verus!
