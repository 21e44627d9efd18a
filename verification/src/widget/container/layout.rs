//! The pure single-axis flex layout engine.
//!
//! Everything here is arithmetic on plain values: given the container's
//! configuration, the content area's extent, and each child's measured
//! intrinsic size and layout options, [`layout_children`] computes where
//! every child goes and how big it is. The result is fully characterized
//! by the spec functions in this module, so the placement of every child
//! is pinned down for all inputs.

use crate::geometry::{clamp_u32, mul_sat, Size};
use crate::widget::axis_size::AxisSize;
use crate::widget::container::{Alignment, Axis, Inset, Insets, Justification};
use crate::widget::intrinsic_size::IntrinsicSize;
use crate::widget::layout_options::LayoutOptions;
use vstd::prelude::*;

verus! {

/// What a container learns about one child before laying it out: the
/// child's reported intrinsic size and its layout options.
#[derive(Clone, Copy, Debug, PartialEq, Eq, Structural)]
pub struct ChildInfo {
    pub size: IntrinsicSize,
    pub options: LayoutOptions,
}

/// Where one child ends up: its offset from the content origin and its
/// final extent.
#[derive(Clone, Copy, Debug, PartialEq, Eq, Structural)]
pub struct Placement {
    pub x: u32,
    pub y: u32,
    pub size: Size,
}

/// The running main-axis dimension while aggregating children: dimensions
/// add up, and "unknown" propagates (unknown + known = known, unknown +
/// unknown = unknown).
pub open spec fn combine_main_dim(acc: Option<u32>, child: Option<u32>) -> Option<u32> {
    match (acc, child) {
        (Some(a), Some(c)) => Some(clamp_u32(a + c) as u32),
        (Some(a), None) => Some(a),
        (None, Some(c)) => Some(c),
        (None, None) => None,
    }
}

/// The running cross-axis dimension while aggregating children: the
/// maximum of the known dimensions, under the same unknown-propagation
/// rule as [`combine_main_dim`].
pub open spec fn combine_cross_dim(acc: Option<u32>, child: Option<u32>) -> Option<u32> {
    match (acc, child) {
        (Some(a), Some(c)) => Some(if a < c { c } else { a }),
        (Some(a), None) => Some(a),
        (None, Some(c)) => Some(c),
        (None, None) => None,
    }
}

/// The minimum box that fits all children stacked along `axis` and
/// aligned on the cross axis: a left-to-right fold summing main-axis
/// dimensions and maximizing cross-axis dimensions.
pub open spec fn spec_content_size(axis: Axis, children: Seq<ChildInfo>) -> IntrinsicSize
    decreases children.len(),
{
    if children.len() == 0 {
        IntrinsicSize { width: None, height: None }
    } else {
        let prev = spec_content_size(axis, children.drop_last());
        let child = children.last().size;
        let cross_axis = axis.spec_opposite();
        let main = combine_main_dim(prev.spec_for_axis(axis), child.spec_for_axis(axis));
        let cross = combine_cross_dim(
            prev.spec_for_axis(cross_axis),
            child.spec_for_axis(cross_axis),
        );
        match axis {
            Axis::Horizontal => IntrinsicSize { width: main, height: cross },
            Axis::Vertical => IntrinsicSize { width: cross, height: main },
        }
    }
}

/// Aggregates the children's intrinsic sizes into the content size of the
/// box that holds them all.
pub fn content_size_of(axis: Axis, children: &Vec<ChildInfo>) -> (r: IntrinsicSize)
    ensures
        r == spec_content_size(axis, children@),
{
    let mut result = IntrinsicSize::none();
    let mut i: usize = 0;
    while i < children.len()
        invariant
            i <= children@.len(),
            result == spec_content_size(axis, children@.subrange(0, i as int)),
        decreases children@.len() - i,
    {
        let child_size = children[i].size;
        let cross_axis = axis.opposite();
        let main = match (result.for_axis(axis), child_size.for_axis(axis)) {
            (Some(a), Some(c)) => Some(a.saturating_add(c)),
            (Some(a), None) => Some(a),
            (None, Some(c)) => Some(c),
            (None, None) => None,
        };
        let cross = match (result.for_axis(cross_axis), child_size.for_axis(cross_axis)) {
            (Some(a), Some(c)) => Some(if a < c { c } else { a }),
            (Some(a), None) => Some(a),
            (None, Some(c)) => Some(c),
            (None, None) => None,
        };
        result = match axis {
            Axis::Horizontal => IntrinsicSize::new(main, cross),
            Axis::Vertical => IntrinsicSize::new(cross, main),
        };
        proof {
            let next = children@.subrange(0, i + 1);
            assert(next.drop_last() =~= children@.subrange(0, i as int));
            assert(next.last() == children@[i as int]);
        }
        i += 1;
    }
    proof {
        assert(children@.subrange(0, children@.len() as int) =~= children@);
    }
    result
}

/// The sum of the children's growth weights, saturating at the top of the
/// `u32` range.
pub open spec fn spec_grow_total(children: Seq<ChildInfo>) -> u32
    decreases children.len(),
{
    if children.len() == 0 {
        0u32
    } else {
        clamp_u32(spec_grow_total(children.drop_last()) + children.last().options.grow) as u32
    }
}

/// The mathematical (unclamped) sum of the children's growth weights.
pub open spec fn grow_sum(children: Seq<ChildInfo>) -> int
    decreases children.len(),
{
    if children.len() == 0 {
        0
    } else {
        grow_sum(children.drop_last()) + children.last().options.grow
    }
}

/// The unclamped sum of growth weights is never negative.
pub proof fn lemma_grow_sum_nonnegative(children: Seq<ChildInfo>)
    ensures
        grow_sum(children) >= 0,
    decreases children.len(),
{
    if children.len() > 0 {
        lemma_grow_sum_nonnegative(children.drop_last());
    }
}

/// As long as the mathematical sum of the growth weights fits in `u32`,
/// the saturating sum equals it exactly.
pub proof fn lemma_grow_total_exact(children: Seq<ChildInfo>)
    requires
        grow_sum(children) <= u32::MAX,
    ensures
        spec_grow_total(children) == grow_sum(children),
    decreases children.len(),
{
    if children.len() > 0 {
        lemma_grow_sum_nonnegative(children.drop_last());
        lemma_grow_total_exact(children.drop_last());
    }
}

/// The intrinsic size of a container whose children measured as
/// `children`: the aggregated content size grown by the padding, a
/// uniform inset of the border width, and the margin, then overridden
/// per axis by the explicit width and height where configured.
pub open spec fn spec_intrinsic_size(
    axis: Axis,
    children: Seq<ChildInfo>,
    padding: Insets,
    border_width: u32,
    margin: Insets,
    width: Option<u32>,
    height: Option<u32>,
) -> IntrinsicSize {
    let total = spec_content_size(axis, children).spec_outset(padding).spec_outset(
        Insets::spec_all(border_width),
    ).spec_outset(margin);
    IntrinsicSize {
        width: match width {
            Some(w) => Some(w),
            None => total.width,
        },
        height: match height {
            Some(h) => Some(h),
            None => total.height,
        },
    }
}

/// Computes a container's intrinsic size from its children's measured
/// sizes and its decoration: exactly [`spec_intrinsic_size`], for every
/// input.
pub fn measured_intrinsic_size(
    axis: Axis,
    children: &Vec<ChildInfo>,
    padding: Insets,
    border_width: u32,
    margin: Insets,
    width: Option<u32>,
    height: Option<u32>,
) -> (r: IntrinsicSize)
    ensures
        r == spec_intrinsic_size(axis, children@, padding, border_width, margin, width, height),
{
    let total = content_size_of(axis, children)
        .outset(padding)
        .outset(Insets::all(border_width))
        .outset(margin);
    IntrinsicSize::new(
        if width.is_some() {
            width
        } else {
            total.width
        },
        if height.is_some() {
            height
        } else {
            total.height
        },
    )
}

fn total_grow(children: &Vec<ChildInfo>) -> (r: u32)
    ensures
        r == spec_grow_total(children@),
{
    let mut total: u32 = 0;
    let mut i: usize = 0;
    while i < children.len()
        invariant
            i <= children@.len(),
            total == spec_grow_total(children@.subrange(0, i as int)),
        decreases children@.len() - i,
    {
        total = total.saturating_add(children[i].options.grow);
        proof {
            let next = children@.subrange(0, i + 1);
            assert(next.drop_last() =~= children@.subrange(0, i as int));
            assert(next.last() == children@[i as int]);
        }
        i += 1;
    }
    proof {
        assert(children@.subrange(0, children@.len() as int) =~= children@);
    }
    total
}

/// The main-axis extent the children collectively claim: their aggregated
/// main-axis content dimension (unknown treated as 0), clamped so they
/// never claim more than the available extent.
pub open spec fn spec_total_main(axis: Axis, size: Size, children: Seq<ChildInfo>) -> int {
    let content = spec_content_size(axis, children).spec_for_axis(axis);
    let m: int = match content {
        Some(v) => v as int,
        None => 0,
    };
    let avail = size.spec_for_axis(axis) as int;
    if m < avail {
        m
    } else {
        avail
    }
}

/// The leftover main-axis space after the children's own extents; never
/// negative.
pub open spec fn spec_extra(axis: Axis, size: Size, children: Seq<ChildInfo>) -> int {
    size.spec_for_axis(axis) - spec_total_main(axis, size, children)
}

/// The number of extra pixels every unit of growth weight receives: the
/// integer quotient of the leftover space by the total growth weight, or
/// 0 when no child grows.
pub open spec fn spec_grow_unit(axis: Axis, size: Size, children: Seq<ChildInfo>) -> int {
    let gt = spec_grow_total(children);
    if gt > 0 {
        spec_extra(axis, size, children) / (gt as int)
    } else {
        0
    }
}

/// The leftover space handed to justification: all of the extra space
/// when no child grows, and 0 otherwise (growth absorbs it all).
pub open spec fn spec_unused(axis: Axis, size: Size, children: Seq<ChildInfo>) -> int {
    if spec_grow_total(children) > 0 {
        0
    } else {
        spec_extra(axis, size, children)
    }
}

/// The main-axis position of the first child, by justification policy,
/// given the unused space and the child count `n` (which must be
/// positive).
pub open spec fn spec_start(justification: Justification, unused: int, n: int) -> int {
    match justification {
        Justification::Start => 0,
        Justification::Center => unused / 2,
        Justification::End => unused,
        Justification::SpaceBetween => 0,
        Justification::SpaceAround => (unused / n) / 2,
        Justification::SpaceEvenly => unused / (n + 1),
    }
}

/// The uniform gap inserted after each child, by justification policy,
/// given the unused space and the child count `n` (which must be
/// positive). With a single child, `SpaceBetween` has no gap to fill and
/// the spacing is 0.
pub open spec fn spec_space(justification: Justification, unused: int, n: int) -> int {
    match justification {
        Justification::Start => 0,
        Justification::Center => 0,
        Justification::End => 0,
        Justification::SpaceBetween => if n > 1 {
            unused / (n - 1)
        } else {
            0
        },
        Justification::SpaceAround => unused / n,
        Justification::SpaceEvenly => unused / (n + 1),
    }
}

/// A child's own alignment override if it has one, else the container's
/// alignment.
pub open spec fn spec_effective_alignment(child: ChildInfo, container_alignment: Alignment) -> Alignment {
    match child.options.alignment {
        Some(a) => a,
        None => container_alignment,
    }
}

/// The size an unknown child dimension resolves against: zero on both
/// axes, except that a stretched child defaults to the full cross-axis
/// extent of the content area.
pub open spec fn spec_default_size(effective: Alignment, axis: Axis, size: Size) -> Size {
    match (effective, axis) {
        (Alignment::Stretch, Axis::Horizontal) => Size { width: 0, height: size.height },
        (Alignment::Stretch, Axis::Vertical) => Size { width: size.width, height: 0 },
        _ => Size { width: 0, height: 0 },
    }
}

/// A child's final extent: its intrinsic size resolved against the
/// default, clamped component-wise to the content area, plus its share of
/// growth on the main axis.
pub open spec fn spec_child_size(
    child: ChildInfo,
    container_alignment: Alignment,
    axis: Axis,
    size: Size,
    grow_unit: int,
) -> Size {
    let effective = spec_effective_alignment(child, container_alignment);
    let base = child.size.spec_to_size_with_defaults(
        spec_default_size(effective, axis, size),
    ).spec_component_min(size);
    base.spec_add_to_axis(clamp_u32(grow_unit * child.options.grow) as u32, axis)
}

/// A child's offset on the cross axis, by its effective alignment.
pub open spec fn spec_cross_offset(effective: Alignment, cross_avail: u32, cross_child: u32) -> int {
    match effective {
        Alignment::Stretch => 0,
        Alignment::Start => 0,
        Alignment::Center => (cross_avail - cross_child) / 2,
        Alignment::End => cross_avail - cross_child,
    }
}

/// The main-axis cursor in front of child `i`: the justification start
/// position advanced, for each earlier child, by that child's main-axis
/// extent plus the uniform spacing.
pub open spec fn spec_cursor(
    axis: Axis,
    alignment: Alignment,
    justification: Justification,
    size: Size,
    children: Seq<ChildInfo>,
    i: int,
) -> int
    decreases i,
{
    let unused = spec_unused(axis, size, children);
    let n = children.len() as int;
    if i <= 0 {
        spec_start(justification, unused, n)
    } else {
        let prev = spec_cursor(axis, alignment, justification, size, children, i - 1);
        let child_main = spec_child_size(
            children[i - 1],
            alignment,
            axis,
            size,
            spec_grow_unit(axis, size, children),
        ).spec_for_axis(axis);
        clamp_u32(clamp_u32(prev + child_main) + spec_space(justification, unused, n))
    }
}

/// Where child `i` goes and how big it is: the main-axis cursor and the
/// cross-axis offset, mapped onto x and y according to the main axis.
pub open spec fn spec_placement(
    axis: Axis,
    alignment: Alignment,
    justification: Justification,
    size: Size,
    children: Seq<ChildInfo>,
    i: int,
) -> Placement {
    let child = children[i];
    let child_size = spec_child_size(
        child,
        alignment,
        axis,
        size,
        spec_grow_unit(axis, size, children),
    );
    let effective = spec_effective_alignment(child, alignment);
    let cross_axis = axis.spec_opposite();
    let main_pos = spec_cursor(axis, alignment, justification, size, children, i);
    let cross_off = spec_cross_offset(
        effective,
        size.spec_for_axis(cross_axis),
        child_size.spec_for_axis(cross_axis),
    );
    match axis {
        Axis::Horizontal => Placement { x: main_pos as u32, y: cross_off as u32, size: child_size },
        Axis::Vertical => Placement { x: cross_off as u32, y: main_pos as u32, size: child_size },
    }
}

/// Computes the placement of every child: for each index `i`, the result
/// holds exactly `spec_placement(..., i)`. With no children the result is
/// empty.
pub fn layout_children(
    axis: Axis,
    alignment: Alignment,
    justification: Justification,
    size: Size,
    children: &Vec<ChildInfo>,
) -> (r: Vec<Placement>)
    ensures
        r@.len() == children@.len(),
        forall|i: int|
            0 <= i < children@.len() ==> r@[i] == spec_placement(
                axis,
                alignment,
                justification,
                size,
                children@,
                i,
            ),
{
    broadcast use vstd::arithmetic::div_mod::lemma_basic_div;
    broadcast use vstd::arithmetic::div_mod::lemma_div_nonincreasing;

    let n = children.len();
    let mut placements: Vec<Placement> = Vec::new();
    if n == 0 {
        return placements;
    }
    let avail = size.for_axis(axis);
    let content_main: u32 = match content_size_of(axis, children).for_axis(axis) {
        Some(v) => v,
        None => 0,
    };
    let total_main = if content_main < avail {
        content_main
    } else {
        avail
    };
    let extra = avail - total_main;
    let grow_total = total_grow(children);
    let unused: u32 = if grow_total > 0 {
        0
    } else {
        extra
    };
    let grow_unit: u32 = if grow_total > 0 {
        extra / grow_total
    } else {
        0
    };
    let unused64: u64 = unused as u64;
    let start: u32 = match justification {
        Justification::Start => 0,
        Justification::Center => unused / 2,
        Justification::End => unused,
        Justification::SpaceBetween => 0,
        Justification::SpaceAround => ((unused64 / (n as u64)) / 2) as u32,
        Justification::SpaceEvenly => (unused64 / (n as u64).saturating_add(1)) as u32,
    };
    let space: u32 = match justification {
        Justification::Start => 0,
        Justification::Center => 0,
        Justification::End => 0,
        Justification::SpaceBetween => if n > 1 {
            (unused64 / ((n - 1) as u64)) as u32
        } else {
            0
        },
        Justification::SpaceAround => (unused64 / (n as u64)) as u32,
        Justification::SpaceEvenly => (unused64 / (n as u64).saturating_add(1)) as u32,
    };
    proof {
        assert(grow_unit == spec_grow_unit(axis, size, children@));
        assert(unused == spec_unused(axis, size, children@));
        assert(start == spec_start(justification, spec_unused(axis, size, children@), n as int));
        assert(space == spec_space(justification, spec_unused(axis, size, children@), n as int));
    }
    let mut cursor: u32 = start;
    let mut i: usize = 0;
    while i < n
        invariant
            n == children@.len(),
            i <= n,
            placements@.len() == i as int,
            forall|j: int|
                0 <= j < i ==> placements@[j] == spec_placement(
                    axis,
                    alignment,
                    justification,
                    size,
                    children@,
                    j,
                ),
            cursor == spec_cursor(axis, alignment, justification, size, children@, i as int),
            grow_unit == spec_grow_unit(axis, size, children@),
            space == spec_space(justification, spec_unused(axis, size, children@), n as int),
        decreases n - i,
    {
        let child = children[i];
        let effective = match child.options.alignment {
            Some(a) => a,
            None => alignment,
        };
        let default_size = match (effective, axis) {
            (Alignment::Stretch, Axis::Horizontal) => Size::new(0, size.height),
            (Alignment::Stretch, Axis::Vertical) => Size::new(size.width, 0),
            _ => Size::zero(),
        };
        let mut child_size = child.size.to_size_with_defaults(default_size).component_min(size);
        child_size.add_to_axis(mul_sat(grow_unit, child.options.grow), axis);
        assert(child_size == spec_child_size(child, alignment, axis, size, grow_unit as int));
        let cross_axis = axis.opposite();
        let cross_avail = size.for_axis(cross_axis);
        let cross_child = child_size.for_axis(cross_axis);
        assert(cross_child <= cross_avail);
        let cross_offset: u32 = match effective {
            Alignment::Stretch => 0,
            Alignment::Start => 0,
            Alignment::Center => (cross_avail - cross_child) / 2,
            Alignment::End => cross_avail - cross_child,
        };
        let placement = match axis {
            Axis::Horizontal => Placement { x: cursor, y: cross_offset, size: child_size },
            Axis::Vertical => Placement { x: cross_offset, y: cursor, size: child_size },
        };
        assert(placement == spec_placement(axis, alignment, justification, size, children@, i as int));
        placements.push(placement);
        cursor = cursor.saturating_add(child_size.for_axis(axis)).saturating_add(space);
        i += 1;
    }
    placements
}

/// Whether any child reports a known dimension along `axis`.
pub open spec fn has_known_main(axis: Axis, children: Seq<ChildInfo>) -> bool {
    exists|i: int| 0 <= i < children.len() && children[i].size.spec_for_axis(axis) is Some
}

/// The saturating sum of the children's known dimensions along `axis`,
/// ignoring unknown ones.
pub open spec fn known_main_sum(axis: Axis, children: Seq<ChildInfo>) -> int
    decreases children.len(),
{
    if children.len() == 0 {
        0
    } else {
        let prev = known_main_sum(axis, children.drop_last());
        match children.last().size.spec_for_axis(axis) {
            Some(v) => clamp_u32(prev + v),
            None => prev,
        }
    }
}

/// With no known dimension along `axis`, the sum of known dimensions is
/// zero.
proof fn lemma_known_main_sum_empty(axis: Axis, children: Seq<ChildInfo>)
    requires
        !has_known_main(axis, children),
    ensures
        known_main_sum(axis, children) == 0,
    decreases children.len(),
{
    if children.len() > 0 {
        let prefix = children.drop_last();
        assert(forall|i: int|
            0 <= i < prefix.len() ==> prefix[i] == children[i]);
        assert(children[children.len() - 1].size.spec_for_axis(axis) !is Some);
        lemma_known_main_sum_empty(axis, prefix);
    }
}

/// The aggregated content dimension along the stacking axis is the sum of
/// the children's known dimensions on that axis, and is unknown exactly
/// when no child reports a known value there.
pub proof fn lemma_content_main_is_known_sum(axis: Axis, children: Seq<ChildInfo>)
    ensures
        0 <= known_main_sum(axis, children) <= u32::MAX,
        spec_content_size(axis, children).spec_for_axis(axis) == (if has_known_main(
            axis,
            children,
        ) {
            Some(known_main_sum(axis, children) as u32)
        } else {
            None::<u32>
        }),
    decreases children.len(),
{
    if children.len() == 0 {
        assert(!has_known_main(axis, children));
    } else {
        let prefix = children.drop_last();
        lemma_content_main_is_known_sum(axis, prefix);
        if children.last().size.spec_for_axis(axis) is Some {
            assert(has_known_main(axis, children)) by {
                assert(children[children.len() - 1].size.spec_for_axis(axis) is Some);
            }
            if !has_known_main(axis, prefix) {
                lemma_known_main_sum_empty(axis, prefix);
            }
        } else {
            if has_known_main(axis, children) {
                let w = choose|i: int|
                    0 <= i < children.len() && children[i].size.spec_for_axis(axis) is Some;
                assert(prefix[w] == children[w]);
                assert(has_known_main(axis, prefix));
            }
            if has_known_main(axis, prefix) {
                let w = choose|i: int|
                    0 <= i < prefix.len() && prefix[i].size.spec_for_axis(axis) is Some;
                assert(children[w] == prefix[w]);
                assert(has_known_main(axis, children));
            }
        }
    }
}

/// With no padding, border, margin or explicit overrides, a container's
/// intrinsic dimension along the stacking axis is the sum of the
/// children's known dimensions there, or unknown when no child reports
/// one.
pub proof fn lemma_intrinsic_main_is_known_sum(axis: Axis, children: Seq<ChildInfo>)
    ensures
        spec_intrinsic_size(
            axis,
            children,
            Insets::spec_none(),
            0,
            Insets::spec_none(),
            None::<u32>,
            None::<u32>,
        ).spec_for_axis(axis) == (if has_known_main(axis, children) {
            Some(known_main_sum(axis, children) as u32)
        } else {
            None::<u32>
        }),
{
    lemma_content_main_is_known_sum(axis, children);
}

/// With exactly one child, `SpaceBetween` has no gap between children to
/// fill, and the spacing is 0 rather than a division by zero.
pub proof fn lemma_space_between_single_child(unused: int)
    ensures
        spec_space(Justification::SpaceBetween, unused, 1) == 0,
{
}

/// When no child has a growth weight, the leftover main-axis space is
/// handed entirely to justification, and every child keeps exactly the
/// size it was resolved and clamped to: growth changes nothing.
pub proof fn lemma_no_growth(
    axis: Axis,
    alignment: Alignment,
    justification: Justification,
    size: Size,
    children: Seq<ChildInfo>,
)
    requires
        spec_grow_total(children) == 0,
    ensures
        spec_unused(axis, size, children) == spec_extra(axis, size, children),
        forall|i: int|
            0 <= i < children.len() ==> spec_placement(
                axis,
                alignment,
                justification,
                size,
                children,
                i,
            ).size == children[i].size.spec_to_size_with_defaults(
                spec_default_size(spec_effective_alignment(children[i], alignment), axis, size),
            ).spec_component_min(size),
{
    assert forall|i: int| 0 <= i < children.len() implies spec_placement(
        axis,
        alignment,
        justification,
        size,
        children,
        i,
    ).size == children[i].size.spec_to_size_with_defaults(
        spec_default_size(spec_effective_alignment(children[i], alignment), axis, size),
    ).spec_component_min(size) by {
        let base = children[i].size.spec_to_size_with_defaults(
            spec_default_size(spec_effective_alignment(children[i], alignment), axis, size),
        ).spec_component_min(size);
        assert(spec_grow_unit(axis, size, children) == 0);
        assert(0 * children[i].options.grow == 0);
        assert(base.spec_add_to_axis(0u32, axis) == base);
    }
}

/// The sum of every child's growth allowance `grow_unit * grow`.
pub open spec fn spec_growth_sum(children: Seq<ChildInfo>, grow_unit: int) -> int
    decreases children.len(),
{
    if children.len() == 0 {
        0
    } else {
        spec_growth_sum(children.drop_last(), grow_unit) + grow_unit * children.last().options.grow
    }
}

/// The growth allowances of all children sum to `grow_unit` times the
/// total growth weight.
pub proof fn lemma_growth_sum_distributes(children: Seq<ChildInfo>, grow_unit: int)
    ensures
        spec_growth_sum(children, grow_unit) == grow_unit * grow_sum(children),
    decreases children.len(),
{
    broadcast use vstd::arithmetic::mul::lemma_mul_is_distributive_add;

    if children.len() == 0 {
        assert(grow_unit * 0 == 0);
    } else {
        lemma_growth_sum_distributes(children.drop_last(), grow_unit);
    }
}

/// When children grow, the space they collectively receive never exceeds
/// the leftover space, and the shortfall — the integer-division remainder
/// that stays undistributed — is at most the total growth weight minus
/// one pixel.
pub proof fn lemma_growth_within_extra(axis: Axis, size: Size, children: Seq<ChildInfo>)
    requires
        spec_grow_total(children) > 0,
        grow_sum(children) <= u32::MAX,
    ensures
        spec_growth_sum(children, spec_grow_unit(axis, size, children)) <= spec_extra(
            axis,
            size,
            children,
        ),
        spec_extra(axis, size, children) - spec_growth_sum(
            children,
            spec_grow_unit(axis, size, children),
        ) < spec_grow_total(children),
{
    let gt = spec_grow_total(children) as int;
    let extra = spec_extra(axis, size, children);
    let unit = spec_grow_unit(axis, size, children);
    lemma_grow_total_exact(children);
    lemma_growth_sum_distributes(children, unit);
    vstd::arithmetic::div_mod::lemma_fundamental_div_mod(extra, gt);
    vstd::arithmetic::div_mod::lemma_mod_division_less_than_divisor(extra, gt);
    vstd::arithmetic::mul::lemma_mul_is_commutative(unit, gt);
}

} // verus!
