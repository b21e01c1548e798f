use vstd::prelude::*;

use crate::geometry::Rect;
use crate::options::{FloatingOptions, PlacementModifier};

verus! {

/// The positioning engine. It holds no state: every result is a function of
/// the arguments alone.
#[derive(Clone, Copy, Debug, Default)]
pub struct Floating;

/// Bound on every coordinate the engine handles; values built from `i32`
/// positions and `u32` extents stay well inside it.
pub const REACH: i64 = 0x4_0000_0000;

pub open spec fn in_reach(v: int) -> bool {
    -REACH <= v <= REACH
}

/// Transverse coordinate of an element of extent `size` aligned against the
/// trigger span that starts at `t_min` and has extent `t_size`.
pub open spec fn aligned(m: PlacementModifier, t_min: int, t_size: int, size: int) -> int {
    match m {
        PlacementModifier::Start => t_min,
        PlacementModifier::Center => t_min + t_size / 2 - size / 2,
        PlacementModifier::End => t_min + t_size - size,
    }
}

/// The ideal top-left corner: adjacent to the trigger on the chosen side,
/// `offset` away from it, aligned along the other axis.
pub open spec fn base_position(element: Rect, trigger: Rect, options: FloatingOptions) -> (int, int) {
    let p = options.placement;
    let off = options.offset as int;
    if p.vertical() {
        (
            aligned(p.modifier(), trigger.min_x as int, trigger.width as int, element.width as int),
            if p.top() {
                trigger.min_y - element.height - off
            } else {
                trigger.bottom() + off
            },
        )
    } else {
        (
            if p.left() {
                trigger.min_x - element.width - off
            } else {
                trigger.right() + off
            },
            aligned(p.modifier(), trigger.min_y as int, trigger.height as int, element.height as int),
        )
    }
}

/// Flip: when the element overflows the scrollable bounds on the chosen side,
/// put it on the opposite side of the trigger. Done once, never re-checked.
pub open spec fn flipped(
    pos: (int, int),
    scrollable: Rect,
    element: Rect,
    trigger: Rect,
    options: FloatingOptions,
) -> (int, int) {
    let p = options.placement;
    let off = options.offset as int;
    if p.vertical() {
        if p.top() && pos.1 < scrollable.min_y {
            (pos.0, trigger.bottom() + off)
        } else if !p.top() && pos.1 + element.height > scrollable.bottom() {
            (pos.0, trigger.min_y - element.height - off)
        } else {
            pos
        }
    } else {
        if p.left() && pos.0 < scrollable.min_x {
            (trigger.right() + off, pos.1)
        } else if !p.left() && pos.0 + element.width > scrollable.right() {
            (trigger.min_x - element.width - off, pos.1)
        } else {
            pos
        }
    }
}

/// `v` raised to `lo`, then lowered to `hi`; on an empty range the result is `hi`.
pub open spec fn clamped(v: int, lo: int, hi: int) -> int {
    let raised = if v < lo { lo } else { v };
    if raised > hi { hi } else { raised }
}

/// Shift on one axis: fit `[v, v + size]` into `[s_min, s_max]`, then keep it
/// attached to the trigger span `[t_min, t_max]` by at least `padding`. The
/// second step has the last word.
pub open spec fn shifted_axis(
    v: int,
    size: int,
    s_min: int,
    s_max: int,
    t_min: int,
    t_max: int,
    padding: int,
) -> int {
    let raised = if v < s_min { s_min } else { v };
    let contained = if raised + size > s_max { s_max - size } else { raised };
    clamped(contained, t_min - size + padding, t_max - padding)
}

/// Shift: moves the element along the transverse axis only.
pub open spec fn shifted(
    pos: (int, int),
    scrollable: Rect,
    element: Rect,
    trigger: Rect,
    options: FloatingOptions,
) -> (int, int) {
    let pad = options.padding as int;
    if options.placement.vertical() {
        (
            shifted_axis(
                pos.0,
                element.width as int,
                scrollable.min_x as int,
                scrollable.right(),
                trigger.min_x as int,
                trigger.right(),
                pad,
            ),
            pos.1,
        )
    } else {
        (
            pos.0,
            shifted_axis(
                pos.1,
                element.height as int,
                scrollable.min_y as int,
                scrollable.bottom(),
                trigger.min_y as int,
                trigger.bottom(),
                pad,
            ),
        )
    }
}

/// The enabled corrections applied to `pos`: Flip first, then Shift.
pub open spec fn corrected(
    pos: (int, int),
    scrollable: Rect,
    element: Rect,
    trigger: Rect,
    options: FloatingOptions,
) -> (int, int) {
    let after_flip = if options.flip_enabled() {
        flipped(pos, scrollable, element, trigger, options)
    } else {
        pos
    };
    if options.shift_enabled() {
        shifted(after_flip, scrollable, element, trigger, options)
    } else {
        after_flip
    }
}

/// Final position of `element` next to `trigger` within `scrollable`.
pub open spec fn placed(
    scrollable: Rect,
    element: Rect,
    trigger: Rect,
    options: FloatingOptions,
) -> (int, int) {
    corrected(base_position(element, trigger, options), scrollable, element, trigger, options)
}

fn clamp_to(v: i64, lo: i64, hi: i64) -> (r: i64)
    ensures
        r == clamped(v as int, lo as int, hi as int),
{
    let raised = if v < lo { lo } else { v };
    if raised > hi { hi } else { raised }
}

fn aligned_exec(m: PlacementModifier, t_min: i32, t_size: u32, size: u32) -> (r: i64)
    ensures
        r == aligned(m, t_min as int, t_size as int, size as int),
{
    match m {
        PlacementModifier::Start => t_min as i64,
        PlacementModifier::Center => t_min as i64 + (t_size / 2) as i64 - (size / 2) as i64,
        PlacementModifier::End => t_min as i64 + t_size as i64 - size as i64,
    }
}

fn shifted_axis_exec(
    v: i64,
    size: u32,
    s_min: i32,
    s_max: i64,
    t_min: i32,
    t_max: i64,
    padding: i32,
) -> (r: i64)
    requires
        in_reach(v as int),
        in_reach(s_max as int),
        in_reach(t_max as int),
    ensures
        r == shifted_axis(
            v as int,
            size as int,
            s_min as int,
            s_max as int,
            t_min as int,
            t_max as int,
            padding as int,
        ),
{
    let raised = if v < s_min as i64 { s_min as i64 } else { v };
    let contained = if raised + size as i64 > s_max { s_max - size as i64 } else { raised };
    clamp_to(contained, t_min as i64 - size as i64 + padding as i64, t_max - padding as i64)
}

impl Floating {
    /// The ideal corner, before any correction.
    fn compute_base_coords(&self, element: &Rect, trigger: &Rect, options: &FloatingOptions) -> (r: (
        i64,
        i64,
    ))
        ensures
            (r.0 as int, r.1 as int) == base_position(*element, *trigger, *options),
            in_reach(r.0 as int),
            in_reach(r.1 as int),
    {
        let off = options.offset as i64;
        if options.placement.is_vertical() {
            let x = aligned_exec(options.placement.get_modifier(), trigger.min_x, trigger.width, element.width);
            let y = if options.placement.is_top() {
                trigger.min_y as i64 - element.height as i64 - off
            } else {
                trigger.max_y() + off
            };
            (x, y)
        } else {
            let x = if options.placement.is_left() {
                trigger.min_x as i64 - element.width as i64 - off
            } else {
                trigger.max_x() + off
            };
            let y = aligned_exec(options.placement.get_modifier(), trigger.min_y, trigger.height, element.height);
            (x, y)
        }
    }

    /// Corrects `initial_pos` with the enabled middleware: Flip, then Shift.
    fn apply_middleware(
        &self,
        initial_pos: (i64, i64),
        scrollable: &Rect,
        element: &Rect,
        trigger: &Rect,
        options: &FloatingOptions,
    ) -> (r: (i64, i64))
        requires
            in_reach(initial_pos.0 as int),
            in_reach(initial_pos.1 as int),
        ensures
            (r.0 as int, r.1 as int) == corrected(
                (initial_pos.0 as int, initial_pos.1 as int),
                *scrollable,
                *element,
                *trigger,
                *options,
            ),
    {
        let (mut x, mut y) = initial_pos;
        let off = options.offset as i64;
        if options.can_flip() {
            if options.placement.is_vertical() {
                if options.placement.is_top() && y < scrollable.min_y as i64 {
                    y = trigger.max_y() + off;
                } else if !options.placement.is_top() && y + element.height as i64 > scrollable.max_y() {
                    y = trigger.min_y as i64 - element.height as i64 - off;
                }
            } else {
                if options.placement.is_left() && x < scrollable.min_x as i64 {
                    x = trigger.max_x() + off;
                } else if !options.placement.is_left() && x + element.width as i64 > scrollable.max_x() {
                    x = trigger.min_x as i64 - element.width as i64 - off;
                }
            }
        }
        if options.can_shift() {
            if options.placement.is_vertical() {
                x = shifted_axis_exec(
                    x,
                    element.width,
                    scrollable.min_x,
                    scrollable.max_x(),
                    trigger.min_x,
                    trigger.max_x(),
                    options.padding,
                );
            } else {
                y = shifted_axis_exec(
                    y,
                    element.height,
                    scrollable.min_y,
                    scrollable.max_y(),
                    trigger.min_y,
                    trigger.max_y(),
                    options.padding,
                );
            }
        }
        (x, y)
    }

    /// Position of `element` next to `trigger`, corrected against the bounds
    /// of `scrollable`: the base position, then Flip, then Shift, as enabled.
    pub fn calculate_placement(
        &self,
        scrollable: Rect,
        element: Rect,
        trigger: Rect,
        options: FloatingOptions,
    ) -> (r: (i64, i64))
        ensures
            (r.0 as int, r.1 as int) == placed(scrollable, element, trigger, options),
    {
        let base = self.compute_base_coords(&element, &trigger, &options);
        self.apply_middleware(base, &scrollable, &element, &trigger, &options)
    }
}

} // verus!
