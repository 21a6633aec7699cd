//! Where the widget goes on a screen of a given size.
//!
//! The widget's right edge sits at 95% of the screen's width and its bottom
//! edge at 80% of the screen's height. The corner that results is cut to
//! whole pixels toward zero and kept within the range of `i32`.

use vstd::prelude::*;
use crate::geometry::{TargetPosition, WidgetSize};

verus! {

/// Share of the screen's width, in percent, at which the widget's right edge sits.
pub const RIGHT_EDGE_PERCENT: u32 = 95;

/// Share of the screen's height, in percent, at which the widget's bottom edge sits.
pub const BOTTOM_EDGE_PERCENT: u32 = 80;

/// The quotient `n / d` with its fractional part dropped, for `d > 0`: of
/// the two integers around the exact quotient, the one nearer to zero.
pub open spec fn quotient_toward_zero(n: int, d: int) -> int {
    if n >= 0 {
        n / d
    } else {
        -((-n) / d)
    }
}

/// The value of `i32` nearest to `v`.
pub open spec fn saturate_i32(v: int) -> int {
    if v < i32::MIN {
        i32::MIN as int
    } else if v > i32::MAX {
        i32::MAX as int
    } else {
        v
    }
}

/// `extent * percent / 100 - widget`, cut to a whole number toward zero.
pub open spec fn inset_offset(extent: int, percent: int, widget: int) -> int {
    quotient_toward_zero(extent * percent - widget * 100, 100)
}

/// The coordinate along one axis: the inset offset, kept within `i32`.
pub open spec fn target_coordinate(extent: int, percent: int, widget: int) -> int {
    saturate_i32(inset_offset(extent, percent, widget))
}

/// The corner at which a widget of the given size is placed on a screen of
/// the given size.
pub open spec fn target_position(
    screen_width: u32,
    screen_height: u32,
    widget_width: u32,
    widget_height: u32,
) -> TargetPosition {
    TargetPosition {
        x: target_coordinate(
            screen_width as int,
            RIGHT_EDGE_PERCENT as int,
            widget_width as int,
        ) as i32,
        y: target_coordinate(
            screen_height as int,
            BOTTOM_EDGE_PERCENT as int,
            widget_height as int,
        ) as i32,
    }
}

/// One axis of the placement.
fn axis_coordinate(extent: u32, percent: u32, widget: u32) -> (c: i32)
    requires
        percent <= 100,
    ensures
        c == target_coordinate(extent as int, percent as int, widget as int),
{
    assert(extent * percent <= 100 * 0xffff_ffff) by (nonlinear_arith)
        requires
            extent <= 0xffff_ffff,
            percent <= 100,
    ;
    let scaled: u64 = extent as u64 * percent as u64;
    let inset: u64 = widget as u64 * 100;
    if scaled >= inset {
        let q: u64 = (scaled - inset) / 100;
        if q > i32::MAX as u64 {
            i32::MAX
        } else {
            q as i32
        }
    } else {
        let q: u64 = (inset - scaled) / 100;
        if q > i32::MAX as u64 {
            i32::MIN
        } else {
            -(q as i32)
        }
    }
}

/// Computes the top-left corner for a widget of `widget_width` by
/// `widget_height` pixels on a screen of `screen_width` by `screen_height`
/// pixels.
///
/// No input is rejected. A screen of zero width or height, or one smaller
/// than the widget, gives a negative coordinate, which is returned as it is.
pub fn compute_position(
    screen_width: u32,
    screen_height: u32,
    widget_width: u32,
    widget_height: u32,
) -> (position: TargetPosition)
    ensures
        position == target_position(screen_width, screen_height, widget_width, widget_height),
        position.x == target_coordinate(
            screen_width as int,
            RIGHT_EDGE_PERCENT as int,
            widget_width as int,
        ),
        position.y == target_coordinate(
            screen_height as int,
            BOTTOM_EDGE_PERCENT as int,
            widget_height as int,
        ),
{
    TargetPosition {
        x: axis_coordinate(screen_width, RIGHT_EDGE_PERCENT, widget_width),
        y: axis_coordinate(screen_height, BOTTOM_EDGE_PERCENT, widget_height),
    }
}

/// Cutting toward zero: the inset offset lies between zero and the exact
/// value `extent * percent / 100 - widget`, and is less than one away from it.
/// Both sides are stated in hundredths, so that no fraction is needed.
pub proof fn lemma_inset_offset_truncates(extent: int, percent: int, widget: int)
    ensures
        ({
            let exact_hundredths = extent * percent - widget * 100;
            let offset = inset_offset(extent, percent, widget);
            &&& exact_hundredths >= 0 ==> 0 <= 100 * offset <= exact_hundredths < 100 * offset
                + 100
            &&& exact_hundredths <= 0 ==> 100 * offset - 100 < exact_hundredths <= 100 * offset
                <= 0
        }),
{
}

/// For the widget of the fixed size, 400 by 400 pixels, on every screen: `x` is 95% of the
/// screen's width less 400, and `y` is 80% of the screen's height less 400,
/// each cut to a whole number toward zero and kept within `i32`.
pub proof fn lemma_fixed_widget_position(screen_width: u32, screen_height: u32)
    ensures
        ({
            let widget = WidgetSize::fixed();
            let position = target_position(
                screen_width,
                screen_height,
                widget.width,
                widget.height,
            );
            &&& position.x == saturate_i32(
                quotient_toward_zero(screen_width * 95 - 40000, 100),
            )
            &&& position.y == saturate_i32(
                quotient_toward_zero(screen_height * 80 - 40000, 100),
            )
        }),
{
}

/// Where the screen's extent and the widget's both fit in `i32`, the
/// coordinate is the inset offset itself: nothing is lost to the range of
/// `i32`.
pub proof fn lemma_coordinate_unsaturated(extent: u32, percent: u32, widget: u32)
    requires
        percent <= 100,
        extent <= i32::MAX,
        widget <= i32::MAX,
    ensures
        target_coordinate(extent as int, percent as int, widget as int) == inset_offset(
            extent as int,
            percent as int,
            widget as int,
        ),
{
    assert(0 <= extent * percent <= 100 * extent) by (nonlinear_arith)
        requires
            0 <= extent,
            0 <= percent <= 100,
    ;
}

/// The position is a function of the four sizes alone: any two results that
/// `compute_position` can give for the same screen and the same widget are
/// the same position.
pub proof fn lemma_position_repeatable(
    screen_width: u32,
    screen_height: u32,
    widget_width: u32,
    widget_height: u32,
    first: TargetPosition,
    second: TargetPosition,
)
    requires
        first == target_position(screen_width, screen_height, widget_width, widget_height),
        second == target_position(screen_width, screen_height, widget_width, widget_height),
    ensures
        first == second,
{
}

} // verus!
