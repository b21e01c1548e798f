//! Positioning of floating elements (tooltips, dropdowns, context menus)
//! next to an anchor, kept visible inside a scrollable container.
//!
//! Coordinates are whole layout units (pixels as measured by the host), so
//! that every result is exact and every overflow is ruled out by proof.
pub mod adapter;
pub mod engine;
pub mod geometry;
pub mod laws;
pub mod options;

pub use adapter::{FloatingResult, ScrollState};
pub use engine::Floating;
pub use geometry::{Offset, Point, Rect, Size};
pub use options::{FloatingOptions, Middleware, Placement, PlacementModifier};
