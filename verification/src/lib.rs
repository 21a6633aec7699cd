//! Startup placement of a fixed-size widget window near the bottom-right
//! corner of the monitor it opens on, and the greeting command offered to
//! the front end.
//!
//! Everything here works on plain values. The host windowing layer is asked
//! for the monitor by the caller, who hands the answer in and carries the
//! resulting move request out.

pub mod geometry;
pub mod greeting;
pub mod placement;
pub mod position;

pub use geometry::{MonitorGeometry, TargetPosition, WidgetSize, WIDGET_HEIGHT, WIDGET_WIDTH};
pub use greeting::greet;
pub use placement::{plan_placement, primary_window_label, MonitorLookup, PlacementPlan, Platform};
pub use position::compute_position;
