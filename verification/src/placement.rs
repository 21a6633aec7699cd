//! The decision taken once at startup: whether the window is moved, and where.
//!
//! The caller asks the host windowing layer for the primary window and its
//! current monitor, reports what it found as a `MonitorLookup`, and carries
//! out the plan that comes back.

use vstd::prelude::*;
use crate::geometry::{MonitorGeometry, TargetPosition, WidgetSize};
use crate::position::{compute_position, target_position};

verus! {

/// What asking the host for the primary window's monitor came to.
#[derive(Clone, Copy, Debug, PartialEq, Eq, Structural)]
pub enum MonitorLookup {
    /// No window carries the primary label.
    WindowMissing,
    /// The window is there, but the host could not answer the query.
    QueryFailed,
    /// The host answered that the window is on no monitor.
    NoMonitor,
    /// The window is on a monitor of this size.
    Found(MonitorGeometry),
}

/// The kind of platform the application runs on.
#[derive(Clone, Copy, Debug, PartialEq, Eq, Structural)]
pub enum Platform {
    Desktop,
    Mobile,
}

/// What startup does about the window's position.
#[derive(Clone, Copy, Debug, PartialEq, Eq, Structural)]
pub struct PlacementPlan {
    /// The screen that the position was computed for.
    pub screen: MonitorGeometry,
    /// The corner computed for the widget on that screen.
    pub target: TargetPosition,
    /// Whether the host is asked to move the window to `target`.
    pub move_window: bool,
}

/// The plan for a lookup on a platform. There is one exactly when a monitor
/// was found; the move is requested exactly when the platform is a desktop.
pub open spec fn planned_placement(lookup: MonitorLookup, platform: Platform) -> Option<
    PlacementPlan,
> {
    match lookup {
        MonitorLookup::Found(screen) => Some(
            PlacementPlan {
                screen,
                target: target_position(
                    screen.width,
                    screen.height,
                    WidgetSize::fixed().width,
                    WidgetSize::fixed().height,
                ),
                move_window: platform == Platform::Desktop,
            },
        ),
        _ => None,
    }
}

/// The position that the host is asked to move the window to, if any.
pub open spec fn requested_move(lookup: MonitorLookup, platform: Platform) -> Option<
    TargetPosition,
> {
    match planned_placement(lookup, platform) {
        Some(plan) => if plan.move_window {
            Some(plan.target)
        } else {
            None
        },
        None => None,
    }
}

/// Label of the window that startup places.
pub fn primary_window_label() -> (label: &'static str)
    ensures
        label@ == "main"@,
{
    "main"
}

/// Decides what startup does about the window's position.
///
/// Any absence along the way (no window, a failed query, no monitor) gives
/// `None`: nothing is computed, nothing is moved, and nothing is reported as
/// an error. With a monitor the target is computed for the fixed widget size,
/// on every platform; only a desktop is asked to move the window.
pub fn plan_placement(lookup: MonitorLookup, platform: Platform) -> (plan: Option<PlacementPlan>)
    ensures
        plan == planned_placement(lookup, platform),
        plan is Some <==> lookup is Found,
{
    match lookup {
        MonitorLookup::Found(screen) => {
            let widget = WidgetSize::fixed();
            let target = compute_position(
                screen.width,
                screen.height,
                widget.width,
                widget.height,
            );
            let move_window = match platform {
                Platform::Desktop => true,
                Platform::Mobile => false,
            };
            Some(PlacementPlan { screen, target, move_window })
        },
        _ => None,
    }
}

impl PlacementPlan {
    /// The move to ask the host for: the target on a desktop, nothing on a
    /// mobile platform.
    pub fn move_request(&self) -> (request: Option<TargetPosition>)
        ensures
            request == (if self.move_window {
                Some(self.target)
            } else {
                None
            }),
    {
        if self.move_window {
            Some(self.target)
        } else {
            None
        }
    }
}

/// A move is requested exactly when a monitor was found on a desktop, and
/// then to the position computed for that monitor and the fixed widget.
/// Without a window, after a failed query, or with no monitor, none is.
pub proof fn lemma_move_requested_iff(lookup: MonitorLookup, platform: Platform)
    ensures
        requested_move(lookup, platform) is Some <==> (lookup is Found && platform
            == Platform::Desktop),
        lookup matches MonitorLookup::Found(screen) ==> (platform == Platform::Desktop
            ==> requested_move(lookup, platform) == Some(
            target_position(screen.width, screen.height, 400, 400),
        )),
{
}

} // verus!
