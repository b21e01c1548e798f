//! Properties of the positioning engine that hold for all inputs.
use vstd::prelude::*;

use crate::geometry::Rect;
use crate::options::{FloatingOptions, Middleware, PlacementModifier};

verus! {

/// With no offset and an element as large as the trigger, the base position
/// sits exactly on the trigger edge of the chosen side and lines up with the
/// trigger on the other axis, whatever the alignment.
pub proof fn lemma_base_on_trigger_edge(element: Rect, trigger: Rect, options: FloatingOptions)
    requires
        options.offset == 0,
        element.width == trigger.width,
        element.height == trigger.height,
    ensures
        ({
            let pos = crate::engine::base_position(element, trigger, options);
            let p = options.placement;
            &&& p.vertical() ==> pos.0 == trigger.min_x
            &&& !p.vertical() ==> pos.1 == trigger.min_y
            &&& p.top() ==> pos.1 + element.height == trigger.min_y
            &&& p.vertical() && !p.top() ==> pos.1 == trigger.bottom()
            &&& p.left() ==> pos.0 + element.width == trigger.min_x
            &&& !p.vertical() && !p.left() ==> pos.0 == trigger.right()
        }),
{
}

/// A centred placement puts the element's midpoint (each half rounded down)
/// on the trigger's midpoint along the transverse axis.
pub proof fn lemma_center_alignment(element: Rect, trigger: Rect, options: FloatingOptions)
    requires
        options.placement.modifier() == PlacementModifier::Center,
    ensures
        ({
            let pos = crate::engine::base_position(element, trigger, options);
            &&& options.placement.vertical() ==> pos.0 == trigger.min_x + trigger.width / 2
                - element.width / 2
            &&& !options.placement.vertical() ==> pos.1 == trigger.min_y + trigger.height / 2
                - element.height / 2
        }),
{
}

/// Without Flip the primary-axis coordinate is never corrected, overflow or not.
pub proof fn lemma_flip_off_keeps_primary(
    scrollable: Rect,
    element: Rect,
    trigger: Rect,
    options: FloatingOptions,
)
    requires
        !options.flip_enabled(),
    ensures
        ({
            let base = crate::engine::base_position(element, trigger, options);
            let pos = crate::engine::placed(scrollable, element, trigger, options);
            &&& options.placement.vertical() ==> pos.1 == base.1
            &&& !options.placement.vertical() ==> pos.0 == base.0
        }),
{
}

/// With Flip, a Top placement that would rise above the scrollable bounds
/// ends up below the trigger (for a non-negative offset).
pub proof fn lemma_flip_top_moves_below(
    scrollable: Rect,
    element: Rect,
    trigger: Rect,
    options: FloatingOptions,
)
    requires
        options.flip_enabled(),
        options.placement.top(),
        options.offset >= 0,
        trigger.min_y - element.height - options.offset < scrollable.min_y,
    ensures
        crate::engine::placed(scrollable, element, trigger, options).1 >= trigger.bottom(),
{
}

/// With Shift, the transverse coordinate always keeps the element attached to
/// the trigger's span by at least `padding`, wherever the container is,
/// provided that span leaves room for it.
pub proof fn lemma_shift_stays_on_trigger(
    scrollable: Rect,
    element: Rect,
    trigger: Rect,
    options: FloatingOptions,
)
    requires
        options.shift_enabled(),
        options.placement.vertical() ==> 2 * options.padding <= trigger.width + element.width,
        !options.placement.vertical() ==> 2 * options.padding <= trigger.height + element.height,
    ensures
        ({
            let pos = crate::engine::placed(scrollable, element, trigger, options);
            let pad = options.padding as int;
            &&& options.placement.vertical() ==> trigger.min_x - element.width + pad <= pos.0
                <= trigger.right() - pad
            &&& !options.placement.vertical() ==> trigger.min_y - element.height + pad <= pos.1
                <= trigger.bottom() - pad
        }),
{
}

/// The result depends on the inputs alone: equal rectangles and equal options
/// give equal positions, and the order or repetition of the middleware list
/// plays no part.
pub proof fn lemma_placement_deterministic(
    scrollable: Rect,
    element: Rect,
    trigger: Rect,
    options: FloatingOptions,
    other: FloatingOptions,
)
    requires
        options.middleware@.to_set() == other.middleware@.to_set(),
        options.offset == other.offset,
        options.padding == other.padding,
        options.placement == other.placement,
    ensures
        crate::engine::placed(scrollable, element, trigger, options) == crate::engine::placed(
            scrollable,
            element,
            trigger,
            other,
        ),
{
    let a = options.middleware@;
    let b = other.middleware@;
    assert(a.to_set().contains(Middleware::Flip) == b.to_set().contains(Middleware::Flip));
    assert(a.to_set().contains(Middleware::Shift) == b.to_set().contains(Middleware::Shift));
}

} // verus!
