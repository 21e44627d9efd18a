//! A layout-and-paint engine for a tree of widgets on a pixel canvas.
//!
//! A [`widget::container::Container`] owns an ordered sequence of child
//! widgets, aggregates their intrinsic sizes bottom-up, distributes the
//! available space along one axis with flexbox-like rules (alignment,
//! justification, growth weights, spacing), and paints its own box
//! decoration before positioning and painting its children.
//!
//! Drawing happens through the [`canvas::Canvas`] capability, a caller-
//! supplied surface that can fill and stroke styled rectangles. The layout
//! arithmetic itself is pure and carries full functional contracts.

pub mod canvas;
pub mod geometry;
pub mod widget;
