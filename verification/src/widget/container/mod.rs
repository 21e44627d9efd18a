//! The composite layout widget and its configuration types.

mod alignment;
mod axis;
mod border;
mod insets;
mod justification;
mod sizing;

pub mod layout;

pub use alignment::Alignment;
pub use axis::Axis;
pub use border::Border;
pub use insets::lemma_size_outset_then_inset;
pub use insets::{Inset, Insets};
pub use justification::Justification;
pub use sizing::Sizing;

use crate::canvas::Canvas;
use crate::geometry::{clamp_i32, offset_coord, CornerRadii, Point, Size};
use crate::widget::intrinsic_size::IntrinsicSize;
use crate::widget::layout_options::LayoutOptions;
use crate::widget::{Node, Widget};
use layout::{layout_children, measured_intrinsic_size, ChildInfo};
use vstd::prelude::*;

verus! {

/// The rectangles one container paint pass works with: where the
/// decorated box sits, and where the content area for the children sits.
#[derive(Clone, Copy, Debug, PartialEq, Eq, Structural)]
pub struct Frame {
    pub box_origin: Point,
    pub box_size: Size,
    pub content_origin: Point,
    pub content_size: Size,
}

/// The border-splitting and inset rule of a paint pass. The border
/// stroke straddles the box edge: its outer half (the width halved,
/// rounding down) is taken off the box rectangle, and its inner half
/// (the rest, so the inner side absorbs the odd pixel) is taken off the
/// content area. So the box sits at the given origin moved in by the
/// margin, with the available size shrunk by margin and outer half; the
/// content sits a further inner half plus padding in.
pub open spec fn spec_frame(
    origin: Point,
    size: Size,
    margin: Insets,
    border_width: u32,
    padding: Insets,
) -> Frame {
    let outer: u32 = (border_width / 2) as u32;
    let inner: u32 = (border_width / 2 + border_width % 2) as u32;
    let box_origin = Point {
        x: clamp_i32(origin.x + margin.left) as i32,
        y: clamp_i32(origin.y + margin.top) as i32,
    };
    let box_size = size.spec_inset(margin).spec_inset(Insets::spec_all(outer));
    let content_origin = Point {
        x: clamp_i32(clamp_i32(box_origin.x + inner) + padding.left) as i32,
        y: clamp_i32(clamp_i32(box_origin.y + inner) + padding.top) as i32,
    };
    let content_size = box_size.spec_inset(Insets::spec_all(inner)).spec_inset(padding);
    Frame { box_origin, box_size, content_origin, content_size }
}

/// Computes the box and content rectangles of a paint pass: exactly
/// [`spec_frame`], for every input.
pub fn frame_for(
    origin: Point,
    size: Size,
    margin: Insets,
    border_width: u32,
    padding: Insets,
) -> (r: Frame)
    ensures
        r == spec_frame(origin, size, margin, border_width, padding),
{
    let outer = border_width / 2;
    let inner = border_width / 2 + border_width % 2;
    let box_origin = Point::new(
        offset_coord(origin.x, margin.left),
        offset_coord(origin.y, margin.top),
    );
    let box_size = size.inset(margin).inset(Insets::all(outer));
    let content_origin = Point::new(
        offset_coord(offset_coord(box_origin.x, inner), padding.left),
        offset_coord(offset_coord(box_origin.y, inner), padding.top),
    );
    let content_size = box_size.inset(Insets::all(inner)).inset(padding);
    Frame { box_origin, box_size, content_origin, content_size }
}

/// The composite layout widget: owns an ordered sequence of child
/// widgets plus decoration and layout configuration, aggregates the
/// children's intrinsic sizes bottom-up, resolves a single-axis flex
/// layout top-down under the available size, and paints its own box
/// decoration before positioning and painting the children.
///
/// A tree is assembled bottom-up through the fluent setters and treated
/// as immutable afterwards; layout and paint are pure functions of the
/// tree and of the constraint passed to [`Container::draw`], with no
/// state kept between calls.
pub struct Container<C: Canvas, L: Widget<C>> {
    pub alignment: Alignment,
    pub axis: Axis,
    pub background_color: Option<C::Color>,
    pub border: Option<Border<C::Color>>,
    pub children: Vec<Node<C, L>>,
    pub corner_radii: Option<CornerRadii>,
    pub height: Option<u32>,
    pub justification: Justification,
    pub layout_options: LayoutOptions,
    pub margin: Insets,
    pub padding: Insets,
    pub width: Option<u32>,
}

impl<C: Canvas, L: Widget<C>> Container<C, L> {
    /// An empty container with the default configuration: vertical axis,
    /// stretched children packed at the start, no decoration, no insets,
    /// no explicit size.
    pub fn new() -> (r: Self)
        ensures
            r.alignment == Alignment::Stretch,
            r.axis == Axis::Vertical,
            r.background_color is None,
            r.border is None,
            r.children@.len() == 0,
            r.corner_radii is None,
            r.height is None,
            r.justification == Justification::Start,
            r.layout_options == (LayoutOptions { alignment: None::<Alignment>, grow: 0 }),
            r.margin == Insets::spec_none(),
            r.padding == Insets::spec_none(),
            r.width is None,
    {
        Container {
            alignment: Alignment::default(),
            axis: Axis::default(),
            background_color: None,
            border: None,
            children: Vec::new(),
            corner_radii: None,
            height: None,
            justification: Justification::default(),
            layout_options: LayoutOptions::new(),
            margin: Insets::default(),
            padding: Insets::default(),
            width: None,
        }
    }

    /// Replaces the cross-axis alignment of the children.
    pub fn alignment(self, value: Alignment) -> (r: Self)
        ensures
            r == (Container { alignment: value, ..self }),
    {
        Container { alignment: value, ..self }
    }

    /// Replaces the axis the children stack along.
    pub fn axis(self, value: Axis) -> (r: Self)
        ensures
            r == (Container { axis: value, ..self }),
    {
        Container { axis: value, ..self }
    }

    /// Replaces the fill color of the box decoration.
    pub fn background_color(self, value: Option<C::Color>) -> (r: Self)
        ensures
            r == (Container { background_color: value, ..self }),
    {
        Container { background_color: value, ..self }
    }

    /// Replaces the border stroke of the box decoration.
    pub fn border(self, value: Option<Border<C::Color>>) -> (r: Self)
        ensures
            r == (Container { border: value, ..self }),
    {
        Container { border: value, ..self }
    }

    /// Replaces the ordered sequence of children.
    pub fn children(self, value: Vec<Node<C, L>>) -> (r: Self)
        ensures
            r == (Container { children: value, ..self }),
    {
        Container { children: value, ..self }
    }

    /// Replaces the corner rounding of the box decoration.
    pub fn corner_radii(self, value: Option<CornerRadii>) -> (r: Self)
        ensures
            r == (Container { corner_radii: value, ..self }),
    {
        Container { corner_radii: value, ..self }
    }

    /// Replaces the explicit height override.
    pub fn height(self, value: Option<u32>) -> (r: Self)
        ensures
            r == (Container { height: value, ..self }),
    {
        Container { height: value, ..self }
    }

    /// Replaces the main-axis justification of the children.
    pub fn justification(self, value: Justification) -> (r: Self)
        ensures
            r == (Container { justification: value, ..self }),
    {
        Container { justification: value, ..self }
    }

    /// Replaces the layout options this container reports to its own
    /// parent.
    pub fn layout_options(self, value: LayoutOptions) -> (r: Self)
        ensures
            r == (Container { layout_options: value, ..self }),
    {
        Container { layout_options: value, ..self }
    }

    /// Replaces the margin outside the box decoration.
    pub fn margin(self, value: Insets) -> (r: Self)
        ensures
            r == (Container { margin: value, ..self }),
    {
        Container { margin: value, ..self }
    }

    /// Replaces the padding between the box decoration and the content.
    pub fn padding(self, value: Insets) -> (r: Self)
        ensures
            r == (Container { padding: value, ..self }),
    {
        Container { padding: value, ..self }
    }

    /// Replaces the explicit width override.
    pub fn width(self, value: Option<u32>) -> (r: Self)
        ensures
            r == (Container { width: value, ..self }),
    {
        Container { width: value, ..self }
    }

    /// The axis the children stack along.
    fn main_axis(&self) -> (r: Axis)
        ensures
            r == self.axis,
    {
        self.axis
    }

    /// The axis alignment applies along.
    fn cross_axis(&self) -> (r: Axis)
        ensures
            r == self.axis.spec_opposite(),
    {
        self.axis.opposite()
    }

    /// The stroke width of the border, or 0 without one.
    pub open spec fn spec_border_width(&self) -> u32 {
        match self.border {
            Some(b) => b.width,
            None => 0,
        }
    }

    #[verifier::when_used_as_spec(spec_border_width)]
    fn border_width(&self) -> (r: u32)
        ensures
            r == self.spec_border_width(),
    {
        match &self.border {
            Some(b) => b.width,
            None => 0,
        }
    }

    /// Asks every child for its intrinsic size and layout options, in
    /// order.
    fn measure_children(&self) -> (r: Vec<ChildInfo>)
        ensures
            r@.len() == self.children@.len(),
        decreases self, 0int,
    {
        let mut infos: Vec<ChildInfo> = Vec::new();
        let mut i: usize = 0;
        while i < self.children.len()
            invariant
                i <= self.children@.len(),
                infos@.len() == i as int,
            decreases self.children@.len() - i,
        {
            let child = &self.children[i];
            proof {
                assert(decreases_to!(*self => self.children));
                assert(decreases_to!(self.children => self.children@));
                assert(decreases_to!(self.children@ => self.children@[i as int]));
            }
            let size = child.intrinsic_size();
            let options = child.layout_options();
            infos.push(ChildInfo { size, options });
            i += 1;
        }
        infos
    }

    /// The size this container wants: the aggregated content size grown
    /// by padding, border width and margin, then overridden per axis by
    /// the explicit width and height if configured.
    ///
    /// The children's measured sizes pass through unverified `Widget`
    /// impls, so they cannot appear in this contract; what is returned
    /// for each measurement is stated exactly one call down, by
    /// [`measured_intrinsic_size`]. What is unconditionally true is
    /// stated here: an axis with an explicit override is always known,
    /// regardless of the children, and with no children the result is
    /// exactly the overrides (unknown where absent), since growing an
    /// unknown dimension keeps it unknown.
    pub fn intrinsic_size(&self) -> (r: IntrinsicSize)
        ensures
            self.width is Some ==> r.width == self.width,
            self.height is Some ==> r.height == self.height,
            self.children@.len() == 0 ==> r == (IntrinsicSize {
                width: self.width,
                height: self.height,
            }),
        decreases self, 1int,
    {
        let infos = self.measure_children();
        measured_intrinsic_size(
            self.main_axis(),
            &infos,
            self.padding,
            self.border_width(),
            self.margin,
            self.width,
            self.height,
        )
    }

    /// Paints this container's own box decoration — fill, stroke and
    /// corner rounding — into the given rectangle, and nothing else.
    fn draw_self(&self, canvas: &mut C, origin: Point, size: Size) -> (r: Result<(), C::Error>) {
        canvas.draw_box(origin, size, self.background_color, self.border, self.corner_radii)
    }

    /// Lays the children out in the content area and paints them in
    /// order, stopping at the first failure and handing it back. With no
    /// children this is a no-op: it succeeds without touching the
    /// canvas.
    pub fn draw_children(&self, canvas: &mut C, origin: Point, size: Size) -> (r: Result<
        (),
        C::Error,
    >)
        ensures
            self.children@.len() == 0 ==> r is Ok,
        decreases self, 1int,
    {
        let n = self.children.len();
        if n == 0 {
            return Ok(());
        }
        let infos = self.measure_children();
        let placements = layout_children(
            self.main_axis(),
            self.alignment,
            self.justification,
            size,
            &infos,
        );
        let mut i: usize = 0;
        while i < n
            invariant
                n == self.children@.len(),
                placements@.len() == n,
                i <= n,
            decreases n - i,
        {
            let placement = &placements[i];
            let child_origin = Point::new(
                offset_coord(origin.x, placement.x),
                offset_coord(origin.y, placement.y),
            );
            let child = &self.children[i];
            proof {
                assert(decreases_to!(*self => self.children));
                assert(decreases_to!(self.children => self.children@));
                assert(decreases_to!(self.children@ => self.children@[i as int]));
            }
            match child.draw(canvas, child_origin, placement.size) {
                Err(e) => {
                    return Err(e);
                },
                Ok(()) => {},
            }
            i += 1;
        }
        Ok(())
    }

    /// Paints the container: the box decoration first, then the
    /// children, propagating the first paint failure from any descendant
    /// without attempting further drawing. The box and content
    /// rectangles come from [`frame_for`], which carries the exact
    /// margin, border-splitting and padding arithmetic.
    pub fn draw(&self, canvas: &mut C, origin: Point, size: Size) -> (r: Result<(), C::Error>)
        decreases self, 2int,
    {
        let frame = frame_for(origin, size, self.margin, self.border_width(), self.padding);
        match self.draw_self(canvas, frame.box_origin, frame.box_size) {
            Err(e) => {
                return Err(e);
            },
            Ok(()) => {},
        }
        self.draw_children(canvas, frame.content_origin, frame.content_size)
    }
}

impl<C: Canvas, L: Widget<C>> Default for Container<C, L> {
    fn default() -> (r: Self)
        ensures
            r.alignment == Alignment::Stretch,
            r.axis == Axis::Vertical,
            r.background_color is None,
            r.border is None,
            r.children@.len() == 0,
            r.corner_radii is None,
            r.height is None,
            r.justification == Justification::Start,
            r.layout_options == (LayoutOptions { alignment: None::<Alignment>, grow: 0 }),
            r.margin == Insets::spec_none(),
            r.padding == Insets::spec_none(),
            r.width is None,
    {
        Container::new()
    }
}

impl<C: Canvas, L: Widget<C>> Widget<C> for Container<C, L> {
    fn intrinsic_size(&self) -> IntrinsicSize {
        self.intrinsic_size()
    }

    fn layout_options(&self) -> LayoutOptions {
        self.layout_options
    }

    fn draw(&self, canvas: &mut C, origin: Point, size: Size) -> Result<(), C::Error> {
        self.draw(canvas, origin, size)
    }
}

} // verus!
