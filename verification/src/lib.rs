//! Placement of an editor window and a viewer window on one monitor.
//!
//! Two modes exist. Side by side, the windows keep their size and meet at the
//! monitor's vertical centre line, each centred vertically. Tiled, each takes
//! one quadrant of the monitor's right half and is resized to it.
//!
//! The crate computes; it moves no window. A caller reads the monitor and the
//! windows from its windowing system, asks [`layout::plan_layout`] for a
//! [`layout::Layout`], and applies it.

pub mod geometry;
pub mod mode;
pub mod window;
pub mod placement;
pub mod side_by_side;
pub mod quadrant;
pub mod layout;
