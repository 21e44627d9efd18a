use cherry::canvas::Canvas;
use cherry::geometry::{CornerRadii, Point, Size};
use cherry::widget::container::{
    Alignment, Axis, Border, Container, Insets, Justification, Sizing,
};
use cherry::widget::{IntrinsicSize, LayoutOptions, Widget};

/// A surface that accepts every draw call and remembers nothing.
struct NullCanvas;

impl Canvas for NullCanvas {
    type Color = u32;
    type Error = ();

    fn draw_box(
        &mut self,
        _origin: Point,
        _size: Size,
        _background_color: Option<u32>,
        _border: Option<Border<u32>>,
        _corner_radii: Option<CornerRadii>,
    ) -> Result<(), ()> {
        Ok(())
    }
}

/// A leaf that wants no space and paints nothing.
struct NullLeaf;

impl Widget<NullCanvas> for NullLeaf {
    fn intrinsic_size(&self) -> IntrinsicSize {
        IntrinsicSize::none()
    }

    fn layout_options(&self) -> LayoutOptions {
        LayoutOptions::new()
    }

    fn draw(&self, _canvas: &mut NullCanvas, _origin: Point, _size: Size) -> Result<(), ()> {
        Ok(())
    }
}

type Cont = Container<NullCanvas, NullLeaf>;

#[test]
fn new_container_defaults() {
    let container: Cont = Container::new();
    assert_eq!(container.alignment, Alignment::Stretch);
    assert_eq!(container.axis, Axis::Vertical);
    assert_eq!(container.background_color, None);
    assert!(container.border.is_none());
    assert!(container.children.is_empty());
    assert_eq!(container.corner_radii, None);
    assert_eq!(container.height, None);
    assert_eq!(container.justification, Justification::Start);
    assert_eq!(container.layout_options, LayoutOptions::new());
    assert_eq!(container.margin, Insets::none());
    assert_eq!(container.padding, Insets::none());
    assert_eq!(container.width, None);
}

#[test]
fn default_container_matches_new() {
    let defaulted: Cont = Default::default();
    assert_eq!(defaulted.axis, Axis::Vertical);
    assert_eq!(defaulted.alignment, Alignment::Stretch);
    assert!(defaulted.children.is_empty());
}

#[test]
fn setters_replace_their_field_and_chain() {
    let container: Cont = Container::new()
        .alignment(Alignment::Center)
        .axis(Axis::Horizontal)
        .background_color(Some(9u32))
        .border(Some(Border { color: 2u32, width: 3 }))
        .corner_radii(Some(CornerRadii::new(Size::new(4, 4))))
        .height(Some(30))
        .justification(Justification::SpaceEvenly)
        .layout_options(LayoutOptions::new().grow(2))
        .margin(Insets::all(1))
        .padding(Insets::all(2))
        .width(Some(40));
    assert_eq!(container.alignment, Alignment::Center);
    assert_eq!(container.axis, Axis::Horizontal);
    assert_eq!(container.background_color, Some(9));
    assert_eq!(container.border, Some(Border { color: 2, width: 3 }));
    assert_eq!(
        container.corner_radii,
        Some(CornerRadii::new(Size::new(4, 4)))
    );
    assert_eq!(container.height, Some(30));
    assert_eq!(container.justification, Justification::SpaceEvenly);
    assert_eq!(container.layout_options.grow, 2);
    assert_eq!(container.margin, Insets::all(1));
    assert_eq!(container.padding, Insets::all(2));
    assert_eq!(container.width, Some(40));
}

#[test]
fn value_type_defaults() {
    assert_eq!(Alignment::default(), Alignment::Stretch);
    assert_eq!(Axis::default(), Axis::Vertical);
    assert_eq!(Justification::default(), Justification::Start);
    assert_eq!(Insets::default(), Insets::none());
    assert_eq!(Sizing::default(), Sizing::Fit);
    assert_eq!(LayoutOptions::default(), LayoutOptions::new());
}

#[test]
fn insets_constructors() {
    assert_eq!(
        Insets::none(),
        Insets {
            left: 0,
            right: 0,
            top: 0,
            bottom: 0
        }
    );
    assert_eq!(
        Insets::all(5),
        Insets {
            left: 5,
            right: 5,
            top: 5,
            bottom: 5
        }
    );
    assert_eq!(
        Insets::horizontal(4),
        Insets {
            left: 4,
            right: 4,
            top: 0,
            bottom: 0
        }
    );
    assert_eq!(
        Insets::vertical(6),
        Insets {
            left: 0,
            right: 0,
            top: 6,
            bottom: 6
        }
    );
}

#[test]
fn sizing_resolves_against_content_and_max() {
    assert_eq!(Sizing::Fit.with(3, 9), 3);
    assert_eq!(Sizing::Fill.with(3, 9), 9);
    assert_eq!(Sizing::Exact(5).with(3, 9), 5);
}

#[test]
fn layout_options_builder() {
    let options = LayoutOptions::new();
    assert_eq!(options.alignment, None);
    assert_eq!(options.grow, 0);
    let options = options.alignment(Some(Alignment::End)).grow(4);
    assert_eq!(options.alignment, Some(Alignment::End));
    assert_eq!(options.grow, 4);
}

#[test]
fn corner_radii_apply_to_all_corners() {
    let radii = CornerRadii::new(Size::new(2, 3));
    assert_eq!(radii.top_left, Size::new(2, 3));
    assert_eq!(radii.top_right, Size::new(2, 3));
    assert_eq!(radii.bottom_right, Size::new(2, 3));
    assert_eq!(radii.bottom_left, Size::new(2, 3));
}

#[test]
fn points_and_sizes_construct_plainly() {
    assert_eq!(Point::zero(), Point::new(0, 0));
    assert_eq!(Size::zero(), Size::new(0, 0));
    let p = Point::new(-3, 9);
    assert_eq!(p.x, -3);
    assert_eq!(p.y, 9);
}
