use vstd::prelude::*;

use crate::engine::Floating;
use crate::geometry::{Offset, Point, Rect, Size};
use crate::options::FloatingOptions;

verus! {

/// Geometry of a scrollable container.
#[derive(Clone, Copy, Debug, PartialEq, Eq, Structural)]
pub struct ScrollState {
    /// Total extent of the scrollable content.
    pub size: Size,
    /// Visible extent of the container; the fallback container box, at the
    /// origin, when no live measurement of the container is at hand.
    pub bounds: Size,
    /// Current scroll position.
    pub state: Offset,
}

/// A computed position, with `is_ready` set once it comes from a real
/// measurement rather than the zeroed placeholder.
#[derive(Clone, Copy, Debug, PartialEq, Eq, Structural)]
pub struct FloatingResult {
    pub x: i64,
    pub y: i64,
    pub is_ready: bool,
}

impl Default for FloatingResult {
    /// The placeholder: origin, not ready.
    fn default() -> (r: Self)
        ensures
            r == (FloatingResult { x: 0, y: 0, is_ready: false }),
    {
        FloatingResult { x: 0, y: 0, is_ready: false }
    }
}

impl FloatingResult {
    /// A ready result at `pos`.
    pub fn placed_at(pos: (i64, i64)) -> (r: FloatingResult)
        ensures
            r == (FloatingResult { x: pos.0, y: pos.1, is_ready: true }),
    {
        FloatingResult { x: pos.0, y: pos.1, is_ready: true }
    }

    /// What to store once an input of the computation is gone: the
    /// placeholder if a ready result is shown, nothing to change otherwise.
    pub fn on_inputs_lost(&self) -> (r: Option<FloatingResult>)
        ensures
            self.is_ready ==> r == Some(FloatingResult { x: 0, y: 0, is_ready: false }),
            !self.is_ready ==> r.is_none(),
    {
        if self.is_ready {
            Some(FloatingResult::default())
        } else {
            None
        }
    }
}

impl ScrollState {
    /// The same state with the visible extent replaced.
    pub fn with_bounds(self, bounds: Size) -> (r: ScrollState)
        ensures
            r == (ScrollState { bounds, ..self }),
    {
        ScrollState { bounds, ..self }
    }

    /// The same state with the content extent replaced.
    pub fn with_size(self, size: Size) -> (r: ScrollState)
        ensures
            r == (ScrollState { size, ..self }),
    {
        ScrollState { size, ..self }
    }
}

/// The container box used for corrections: the live measurement, else the
/// recorded visible extent at the origin.
pub open spec fn container_or_bounds(scroll_state: ScrollState, measured: Option<Rect>) -> Rect {
    match measured {
        Some(r) => r,
        None => Rect { min_x: 0, min_y: 0, width: scroll_state.bounds.width, height: scroll_state.bounds.height },
    }
}

/// The measured trigger box, else the unit box at the origin.
pub open spec fn trigger_or_origin(measured: Option<Rect>) -> Rect {
    match measured {
        Some(r) => r,
        None => Rect { min_x: 0, min_y: 0, width: 1, height: 1 },
    }
}

/// Position of an element against `trigger` inside `scrollable`; with no
/// measurement of the element, the trigger's corner unchanged.
pub open spec fn placed_or_anchor(
    scrollable: Rect,
    element: Option<Rect>,
    trigger: Rect,
    options: FloatingOptions,
) -> (int, int) {
    match element {
        Some(e) => crate::engine::placed(scrollable, e, trigger, options),
        None => (trigger.min_x as int, trigger.min_y as int),
    }
}

impl Floating {
    /// Combines the three measurements of a mounted container; each one that
    /// failed counts as zero.
    pub fn generate_scroll_state_from_mounted(
        &self,
        client_rect: Option<Rect>,
        scroll_size: Option<Size>,
        scroll_offset: Option<Offset>,
    ) -> (r: ScrollState)
        ensures
            r.size == match scroll_size {
                Some(s) => s,
                None => Size { width: 0, height: 0 },
            },
            r.bounds == match client_rect {
                Some(c) => Size { width: c.width, height: c.height },
                None => Size { width: 0, height: 0 },
            },
            r.state == match scroll_offset {
                Some(o) => o,
                None => Offset { x: 0, y: 0 },
            },
    {
        let size = match scroll_size {
            Some(s) => s,
            None => Size::zero(),
        };
        let bounds = match client_rect {
            Some(c) => c.size(),
            None => Size::zero(),
        };
        let state = match scroll_offset {
            Some(o) => o,
            None => Offset::zero(),
        };
        ScrollState { size, bounds, state }
    }

    /// The state carried by a scroll notification.
    pub fn generate_scroll_state(
        &self,
        scroll_width: u32,
        scroll_height: u32,
        client_width: u32,
        client_height: u32,
        scroll_left: i32,
        scroll_top: i32,
    ) -> (r: ScrollState)
        ensures
            r == (ScrollState {
                size: Size { width: scroll_width, height: scroll_height },
                bounds: Size { width: client_width, height: client_height },
                state: Offset { x: scroll_left, y: scroll_top },
            }),
    {
        ScrollState {
            size: Size::new(scroll_width, scroll_height),
            bounds: Size::new(client_width, client_height),
            state: Offset::new(scroll_left, scroll_top),
        }
    }

    fn place_or_anchor(
        &self,
        scrollable: Rect,
        element_rect: Option<Rect>,
        trigger: Rect,
        options: FloatingOptions,
    ) -> (r: (i64, i64))
        ensures
            (r.0 as int, r.1 as int) == placed_or_anchor(scrollable, element_rect, trigger, options),
    {
        match element_rect {
            Some(element) => self.calculate_placement(scrollable, element, trigger, options),
            None => (trigger.min_x as i64, trigger.min_y as i64),
        }
    }

    /// Position of an element anchored to a point, taken as a one-unit
    /// trigger. `scrollable_rect` and `element_rect` are the measurements of
    /// the container and of the element, `None` where one failed.
    pub fn placement_on_point(
        &self,
        scroll_state: ScrollState,
        scrollable_rect: Option<Rect>,
        element_rect: Option<Rect>,
        trigger: Point,
        options: FloatingOptions,
    ) -> (r: (i64, i64))
        ensures
            (r.0 as int, r.1 as int) == placed_or_anchor(
                container_or_bounds(scroll_state, scrollable_rect),
                element_rect,
                Rect { min_x: trigger.x, min_y: trigger.y, width: 1, height: 1 },
                options,
            ),
            element_rect.is_none() ==> r == (trigger.x as i64, trigger.y as i64),
    {
        let scrollable = match scrollable_rect {
            Some(s) => s,
            None => Rect::at_origin(scroll_state.bounds),
        };
        self.place_or_anchor(scrollable, element_rect, Rect::unit_at(trigger), options)
    }

    /// Position of an element anchored to a measured trigger. Each argument
    /// `*_rect` is a measurement, `None` where it failed; a missing trigger
    /// counts as the unit box at the origin.
    pub fn placement_on_trigger(
        &self,
        scroll_state: ScrollState,
        scrollable_rect: Option<Rect>,
        element_rect: Option<Rect>,
        trigger_rect: Option<Rect>,
        options: FloatingOptions,
    ) -> (r: (i64, i64))
        ensures
            (r.0 as int, r.1 as int) == placed_or_anchor(
                container_or_bounds(scroll_state, scrollable_rect),
                element_rect,
                trigger_or_origin(trigger_rect),
                options,
            ),
    {
        let scrollable = match scrollable_rect {
            Some(s) => s,
            None => Rect::at_origin(scroll_state.bounds),
        };
        let trigger = match trigger_rect {
            Some(t) => t,
            None => Rect::new(0, 0, 1, 1),
        };
        self.place_or_anchor(scrollable, element_rect, trigger, options)
    }
}

} // verus!
