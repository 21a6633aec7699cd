//! The plain values that placement works on.

use vstd::prelude::*;

verus! {

/// Width of the widget window, in physical pixels.
pub const WIDGET_WIDTH: u32 = 400;

/// Height of the widget window, in physical pixels.
pub const WIDGET_HEIGHT: u32 = 400;

/// Pixel dimensions of a monitor, as the host windowing layer reported them.
///
/// A snapshot: nothing here is validated, and a degenerate size (zero in
/// either direction) is a legal value.
#[derive(Clone, Copy, Debug, PartialEq, Eq, Structural)]
pub struct MonitorGeometry {
    pub width: u32,
    pub height: u32,
}

/// Pixel dimensions of the widget window.
#[derive(Clone, Copy, Debug, PartialEq, Eq, Structural)]
pub struct WidgetSize {
    pub width: u32,
    pub height: u32,
}

/// Top-left corner at which the window is to be placed, in physical pixels.
///
/// Either coordinate may be negative: a widget larger than the inset region
/// of its screen starts left of, or above, the screen's origin.
#[derive(Clone, Copy, Debug, PartialEq, Eq, Structural)]
pub struct TargetPosition {
    pub x: i32,
    pub y: i32,
}

impl WidgetSize {
    /// The size every widget window has.
    pub open spec fn spec_fixed() -> WidgetSize {
        WidgetSize { width: WIDGET_WIDTH, height: WIDGET_HEIGHT }
    }

    /// The size every widget window has.
    #[verifier::when_used_as_spec(spec_fixed)]
    pub fn fixed() -> (size: WidgetSize)
        ensures
            size == Self::spec_fixed(),
    {
        WidgetSize { width: WIDGET_WIDTH, height: WIDGET_HEIGHT }
    }
}

} // verus!
