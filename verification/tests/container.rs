use cherry::canvas::Canvas;
use cherry::geometry::{CornerRadii, Point, Size};
use cherry::widget::container::{
    frame_for, Alignment, Axis, Border, Container, Frame, Insets, Justification,
};
use cherry::widget::{IntrinsicSize, LayoutOptions, Node, Widget};

/// A drawing surface that records every box it is asked to paint and, in
/// the spirit of a mock display, panics when a box reaches outside it.
struct RecordingCanvas {
    size: Size,
    fail_from: Option<usize>,
    calls: Vec<Call>,
}

#[derive(Clone, Debug)]
struct Call {
    origin: Point,
    size: Size,
    background: Option<u32>,
    border_width: Option<u32>,
    rounded: bool,
}

impl RecordingCanvas {
    fn new(width: u32, height: u32) -> Self {
        RecordingCanvas {
            size: Size::new(width, height),
            fail_from: None,
            calls: Vec::new(),
        }
    }
}

impl Canvas for RecordingCanvas {
    type Color = u32;
    type Error = String;

    fn draw_box(
        &mut self,
        origin: Point,
        size: Size,
        background_color: Option<u32>,
        border: Option<Border<u32>>,
        corner_radii: Option<CornerRadii>,
    ) -> Result<(), String> {
        if let Some(limit) = self.fail_from {
            if self.calls.len() >= limit {
                return Err(String::from("paint failure"));
            }
        }
        assert!(origin.x >= 0 && origin.y >= 0, "box starts outside the canvas");
        assert!(
            origin.x as u32 + size.width <= self.size.width,
            "box ends past the right edge"
        );
        assert!(
            origin.y as u32 + size.height <= self.size.height,
            "box ends past the bottom edge"
        );
        self.calls.push(Call {
            origin,
            size,
            background: background_color,
            border_width: border.map(|b| b.width),
            rounded: corner_radii.is_some(),
        });
        Ok(())
    }
}

/// A leaf widget of fixed intrinsic size that paints one plain box, so
/// its placement shows up in the canvas log.
struct Block {
    size: IntrinsicSize,
    options: LayoutOptions,
}

impl Block {
    fn new(width: u32, height: u32) -> Self {
        Block {
            size: IntrinsicSize::new(Some(width), Some(height)),
            options: LayoutOptions::new(),
        }
    }

    fn unsized_block() -> Self {
        Block {
            size: IntrinsicSize::none(),
            options: LayoutOptions::new(),
        }
    }
}

impl Widget<RecordingCanvas> for Block {
    fn intrinsic_size(&self) -> IntrinsicSize {
        self.size
    }

    fn layout_options(&self) -> LayoutOptions {
        self.options
    }

    fn draw(&self, canvas: &mut RecordingCanvas, origin: Point, size: Size) -> Result<(), String> {
        canvas.draw_box(origin, size, None, None, None)
    }
}

type Cont = Container<RecordingCanvas, Block>;

#[test]
fn child_bigger_than_self() {
    let mut display = RecordingCanvas::new(64, 64);
    let size = display.size;

    let child: Cont = Container::new()
        .width(Some(size.width + 10))
        .height(Some(size.height + 10));
    let container: Cont = Container::new().children(vec![Node::Container(child)]);

    container.draw(&mut display, Point::zero(), size).unwrap()
}

#[test]
fn empty_container_paints_its_box_exactly_once() {
    let mut canvas = RecordingCanvas::new(64, 64);
    let size = canvas.size;
    let container: Cont = Container::new();
    container.draw(&mut canvas, Point::zero(), size).unwrap();
    assert_eq!(canvas.calls.len(), 1);
    assert_eq!(canvas.calls[0].origin, Point::zero());
    assert_eq!(canvas.calls[0].size, size);
}

#[test]
fn intrinsic_size_sums_known_main_dimensions() {
    let container: Cont = Container::new().axis(Axis::Horizontal).children(vec![
        Node::Leaf(Block::new(10, 7)),
        Node::Leaf(Block::new(20, 9)),
        Node::Leaf(Block::new(30, 8)),
    ]);
    let size = container.intrinsic_size();
    assert_eq!(size.width, Some(60));
    assert_eq!(size.height, Some(9));
}

#[test]
fn intrinsic_size_unknown_when_no_child_reports_one() {
    let container: Cont = Container::new().axis(Axis::Horizontal).children(vec![
        Node::Leaf(Block::unsized_block()),
        Node::Leaf(Block::unsized_block()),
    ]);
    let size = container.intrinsic_size();
    assert_eq!(size.width, None);
    assert_eq!(size.height, None);
}

#[test]
fn intrinsic_size_mixes_known_and_unknown_children() {
    let container: Cont = Container::new().axis(Axis::Horizontal).children(vec![
        Node::Leaf(Block::unsized_block()),
        Node::Leaf(Block::new(25, 5)),
    ]);
    let size = container.intrinsic_size();
    assert_eq!(size.width, Some(25));
    assert_eq!(size.height, Some(5));
}

#[test]
fn explicit_dimensions_override_content() {
    let container: Cont = Container::new()
        .axis(Axis::Horizontal)
        .width(Some(7))
        .children(vec![Node::Leaf(Block::new(10, 12))]);
    let size = container.intrinsic_size();
    assert_eq!(size.width, Some(7));
    assert_eq!(size.height, Some(12));
}

#[test]
fn intrinsic_size_grows_by_padding_border_and_margin() {
    let container: Cont = Container::new()
        .padding(Insets::all(2))
        .border(Some(Border { color: 1u32, width: 4 }))
        .margin(Insets::all(1))
        .children(vec![Node::Leaf(Block::new(10, 10))]);
    let size = container.intrinsic_size();
    // 10 content + 2 * (2 padding + 4 border + 1 margin) on each axis
    assert_eq!(size, IntrinsicSize::new(Some(24), Some(24)));
}

#[test]
fn row_of_children_painted_in_order() {
    let mut canvas = RecordingCanvas::new(100, 50);
    let container: Cont = Container::new()
        .axis(Axis::Horizontal)
        .alignment(Alignment::Start)
        .justification(Justification::Start)
        .children(vec![
            Node::Leaf(Block::new(10, 10)),
            Node::Leaf(Block::new(20, 10)),
            Node::Leaf(Block::new(30, 10)),
        ]);
    container
        .draw(&mut canvas, Point::zero(), Size::new(100, 50))
        .unwrap();
    assert_eq!(canvas.calls.len(), 4);
    assert_eq!(canvas.calls[0].origin, Point::zero());
    assert_eq!(canvas.calls[0].size, Size::new(100, 50));
    assert_eq!(canvas.calls[1].origin, Point::new(0, 0));
    assert_eq!(canvas.calls[1].size, Size::new(10, 10));
    assert_eq!(canvas.calls[2].origin, Point::new(10, 0));
    assert_eq!(canvas.calls[2].size, Size::new(20, 10));
    assert_eq!(canvas.calls[3].origin, Point::new(30, 0));
    assert_eq!(canvas.calls[3].size, Size::new(30, 10));
}

#[test]
fn space_between_spreads_children() {
    let mut canvas = RecordingCanvas::new(100, 50);
    let container: Cont = Container::new()
        .axis(Axis::Horizontal)
        .alignment(Alignment::Start)
        .justification(Justification::SpaceBetween)
        .children(vec![
            Node::Leaf(Block::new(10, 10)),
            Node::Leaf(Block::new(20, 10)),
            Node::Leaf(Block::new(30, 10)),
        ]);
    container
        .draw(&mut canvas, Point::zero(), Size::new(100, 50))
        .unwrap();
    assert_eq!(canvas.calls[1].origin.x, 0);
    assert_eq!(canvas.calls[2].origin.x, 30);
    assert_eq!(canvas.calls[3].origin.x, 70);
}

#[test]
fn border_splits_into_outer_floor_and_inner_remainder() {
    let mut canvas = RecordingCanvas::new(100, 100);
    let container: Cont = Container::new()
        .axis(Axis::Horizontal)
        .alignment(Alignment::Start)
        .margin(Insets::all(4))
        .padding(Insets::all(6))
        .border(Some(Border { color: 1u32, width: 5 }))
        .children(vec![Node::Leaf(Block::new(10, 10))]);
    container
        .draw(&mut canvas, Point::zero(), Size::new(100, 100))
        .unwrap();
    // The box edge sits at margin + outer half (floor, 2): the origin
    // moves by the margin alone, the size shrinks by margin and outer
    // half on both sides.
    assert_eq!(canvas.calls[0].origin, Point::new(4, 4));
    assert_eq!(canvas.calls[0].size, Size::new(88, 88));
    assert_eq!(canvas.calls[0].border_width, Some(5));
    // The content sits a further inner half (remainder, 3) + padding in.
    assert_eq!(canvas.calls[1].origin, Point::new(13, 13));
    assert_eq!(canvas.calls[1].size, Size::new(10, 10));
}

#[test]
fn frame_splits_the_border_and_applies_the_insets() {
    let frame = frame_for(
        Point::zero(),
        Size::new(100, 100),
        Insets::all(4),
        5,
        Insets::all(6),
    );
    // outer half = 2 (floor), inner half = 3 (remainder)
    assert_eq!(
        frame,
        Frame {
            box_origin: Point::new(4, 4),
            box_size: Size::new(88, 88),
            content_origin: Point::new(13, 13),
            content_size: Size::new(70, 70),
        }
    );
}

#[test]
fn frame_without_decoration_passes_the_rectangle_through() {
    let frame = frame_for(
        Point::new(2, 3),
        Size::new(10, 20),
        Insets::none(),
        0,
        Insets::none(),
    );
    assert_eq!(frame.box_origin, Point::new(2, 3));
    assert_eq!(frame.box_size, Size::new(10, 20));
    assert_eq!(frame.content_origin, Point::new(2, 3));
    assert_eq!(frame.content_size, Size::new(10, 20));
}

#[test]
fn frame_saturates_when_insets_exceed_the_size() {
    let frame = frame_for(
        Point::zero(),
        Size::new(5, 5),
        Insets::all(10),
        0,
        Insets::none(),
    );
    assert_eq!(frame.box_origin, Point::new(10, 10));
    assert_eq!(frame.box_size, Size::new(0, 0));
    assert_eq!(frame.content_size, Size::new(0, 0));
}

#[test]
fn decoration_carries_background_and_rounding() {
    let mut canvas = RecordingCanvas::new(64, 64);
    let container: Cont = Container::new()
        .background_color(Some(7u32))
        .corner_radii(Some(CornerRadii::new(Size::new(3, 3))));
    container
        .draw(&mut canvas, Point::zero(), Size::new(64, 64))
        .unwrap();
    assert_eq!(canvas.calls[0].background, Some(7));
    assert!(canvas.calls[0].rounded);
    assert_eq!(canvas.calls[0].border_width, None);
}

#[test]
fn first_paint_failure_stops_the_pass() {
    let mut canvas = RecordingCanvas::new(100, 50);
    canvas.fail_from = Some(2);
    let container: Cont = Container::new().axis(Axis::Horizontal).children(vec![
        Node::Leaf(Block::new(10, 10)),
        Node::Leaf(Block::new(10, 10)),
        Node::Leaf(Block::new(10, 10)),
    ]);
    let result = container.draw(&mut canvas, Point::zero(), Size::new(100, 50));
    assert_eq!(result, Err(String::from("paint failure")));
    // The container's own box and the first child were painted; the
    // remaining children were never attempted.
    assert_eq!(canvas.calls.len(), 2);
}

#[test]
fn nested_containers_recurse() {
    let mut canvas = RecordingCanvas::new(100, 50);
    let inner: Cont = Container::new()
        .width(Some(20))
        .height(Some(10))
        .background_color(Some(3u32));
    let outer: Cont = Container::new()
        .axis(Axis::Horizontal)
        .alignment(Alignment::Start)
        .children(vec![
            Node::Leaf(Block::new(10, 10)),
            Node::Container(inner),
        ]);
    outer
        .draw(&mut canvas, Point::zero(), Size::new(100, 50))
        .unwrap();
    assert_eq!(canvas.calls.len(), 3);
    assert_eq!(canvas.calls[2].origin, Point::new(10, 0));
    assert_eq!(canvas.calls[2].size, Size::new(20, 10));
    assert_eq!(canvas.calls[2].background, Some(3));
}

#[test]
fn drawing_starts_from_the_given_origin() {
    let mut canvas = RecordingCanvas::new(100, 50);
    let container: Cont = Container::new()
        .axis(Axis::Horizontal)
        .alignment(Alignment::Start)
        .children(vec![Node::Leaf(Block::new(10, 10))]);
    container
        .draw(&mut canvas, Point::new(5, 7), Size::new(60, 40))
        .unwrap();
    assert_eq!(canvas.calls[0].origin, Point::new(5, 7));
    assert_eq!(canvas.calls[0].size, Size::new(60, 40));
    assert_eq!(canvas.calls[1].origin, Point::new(5, 7));
}

#[test]
fn growing_child_is_painted_at_full_extent() {
    let mut canvas = RecordingCanvas::new(100, 50);
    let container: Cont = Container::new()
        .axis(Axis::Horizontal)
        .alignment(Alignment::Start)
        .children(vec![Node::Leaf(Block {
            size: IntrinsicSize::new(Some(20), Some(10)),
            options: LayoutOptions::new().grow(1),
        })]);
    container
        .draw(&mut canvas, Point::zero(), Size::new(100, 50))
        .unwrap();
    assert_eq!(canvas.calls[1].size, Size::new(100, 10));
}
