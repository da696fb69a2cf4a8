//! Where a window goes on its monitor for each move-to-position action.
//!
//! The work area is split into a left and a right column and into a top and a
//! bottom row; full-width actions (top, bottom) span both columns and the middle
//! actions span the whole height. The right column starts one pixel left of the
//! center and each column is one pixel wider than half, which closes the
//! one-pixel seam that windows show even after their invisible borders are
//! taken into account. The window's border margin is then compensated for, with
//! two more pixels of height where the bottom margin is positive.

use vstd::prelude::*;
use crate::geometry::{fits_i32, half, half_i64, MonitorInfo, Rect, WindowBorderSize, WindowPosition};
use crate::hotkey_action::{ActionBand, HotKeyAction};

verus! {

/// Actions that place the window in the right column.
pub open spec fn in_right_column(a: HotKeyAction) -> bool {
    ||| a is MoveWindowToRightBottom
    ||| a is MoveWindowToRightMiddle
    ||| a is MoveWindowToRightTop
}

/// Actions that place the window in the bottom row.
pub open spec fn in_bottom_row(a: HotKeyAction) -> bool {
    ||| a is MoveWindowToLeftBottom
    ||| a is MoveWindowToBottom
    ||| a is MoveWindowToRightBottom
}

/// Actions whose window spans the full width of the work area.
pub open spec fn spans_full_width(a: HotKeyAction) -> bool {
    a is MoveWindowToBottom || a is MoveWindowToTop
}

/// Actions whose window spans the full height of the work area.
pub open spec fn spans_full_height(a: HotKeyAction) -> bool {
    a is MoveWindowToLeftMiddle || a is MoveWindowToRightMiddle
}

/// The target's left edge, for a work area at `x` that is `w` wide.
pub open spec fn target_left(x: int, w: int, m: WindowBorderSize, a: HotKeyAction) -> int {
    (if in_right_column(a) {
        half(w) - 1
    } else {
        0
    }) + x + m.left
}

/// The target's top edge, for a work area at `y` that is `h` high.
pub open spec fn target_top(y: int, h: int, a: HotKeyAction) -> int {
    (if in_bottom_row(a) {
        half(h)
    } else {
        0
    }) + y
}

/// The target's width, for a work area that is `w` wide.
pub open spec fn target_width(w: int, m: WindowBorderSize, a: HotKeyAction) -> int {
    (if spans_full_width(a) {
        w
    } else {
        half(w) + 1
    }) + m.right - m.left
}

/// The target's height, for a work area that is `h` high.
pub open spec fn target_height(h: int, m: WindowBorderSize, a: HotKeyAction) -> int {
    (if spans_full_height(a) {
        h
    } else {
        half(h)
    }) + m.bottom + (if m.bottom > 0 {
        2int
    } else {
        0int
    })
}

/// The target of `a` for the work area `area`, with margin `m`, as a rectangle
/// `(left, top, right, bottom)`.
pub open spec fn target_rect(area: Rect, m: WindowBorderSize, a: HotKeyAction) -> (
    int,
    int,
    int,
    int,
) {
    let left = target_left(area.left as int, area.spec_width(), m, a);
    let top = target_top(area.top as int, area.spec_height(), a);
    (
        left,
        top,
        left + target_width(area.spec_width(), m, a),
        top + target_height(area.spec_height(), m, a),
    )
}

/// The target of `a` for the work area `area` is made of `i32` coordinates.
pub open spec fn target_rect_fits(area: Rect, m: WindowBorderSize, a: HotKeyAction) -> bool {
    let t = target_rect(area, m, a);
    fits_i32(t.0) && fits_i32(t.1) && fits_i32(t.2) && fits_i32(t.3)
}

/// The target of `a` for the work area of `monitor`, with margin `m`, as a
/// position `(left, top, width, height)`.
pub open spec fn target_position(monitor: MonitorInfo, m: WindowBorderSize, a: HotKeyAction) -> (
    int,
    int,
    int,
    int,
) {
    (
        target_left(monitor.x_offset as int, monitor.width as int, m, a),
        target_top(monitor.y_offset as int, monitor.height as int, a),
        target_width(monitor.width as int, m, a),
        target_height(monitor.height as int, m, a),
    )
}

/// The target position of `a` on `monitor` is made of `i32` values.
pub open spec fn target_position_fits(
    monitor: MonitorInfo,
    m: WindowBorderSize,
    a: HotKeyAction,
) -> bool {
    let t = target_position(monitor, m, a);
    fits_i32(t.0) && fits_i32(t.1) && fits_i32(t.2) && fits_i32(t.3)
}

/// The target position for a work area at `(x, y)` of size `w` by `h`, computed
/// without overflow on wide integers.
fn target_position_wide(x: i64, y: i64, w: i64, h: i64, m: &WindowBorderSize, a: HotKeyAction) -> (r: (
    i64,
    i64,
    i64,
    i64,
))
    requires
        -0x1_0000_0000 <= x <= 0x1_0000_0000,
        -0x1_0000_0000 <= y <= 0x1_0000_0000,
        -0x1_0000_0000 <= w <= 0x1_0000_0000,
        -0x1_0000_0000 <= h <= 0x1_0000_0000,
    ensures
        r.0 == target_left(x as int, w as int, *m, a),
        r.1 == target_top(y as int, h as int, a),
        r.2 == target_width(w as int, *m, a),
        r.3 == target_height(h as int, *m, a),
{
    let column_offset: i64 = match a {
        HotKeyAction::MoveWindowToRightBottom
        | HotKeyAction::MoveWindowToRightMiddle
        | HotKeyAction::MoveWindowToRightTop => half_i64(w) - 1,
        _ => 0,
    };
    let row_offset: i64 = match a {
        HotKeyAction::MoveWindowToLeftBottom
        | HotKeyAction::MoveWindowToBottom
        | HotKeyAction::MoveWindowToRightBottom => half_i64(h),
        _ => 0,
    };
    let width: i64 = match a {
        HotKeyAction::MoveWindowToBottom | HotKeyAction::MoveWindowToTop => w,
        _ => half_i64(w) + 1,
    };
    let height: i64 = match a {
        HotKeyAction::MoveWindowToLeftMiddle | HotKeyAction::MoveWindowToRightMiddle => h,
        _ => half_i64(h),
    };
    let bottom_fix: i64 = if m.bottom > 0 {
        2
    } else {
        0
    };
    (
        column_offset + x + m.left as i64,
        row_offset + y,
        width + m.right as i64 - m.left as i64,
        height + m.bottom as i64 + bottom_fix,
    )
}

/// The target of `a` on the work area `area`, computed on wide integers.
pub(crate) fn target_rect_wide(area: &Rect, m: &WindowBorderSize, a: HotKeyAction) -> (r: (
    i64,
    i64,
    i64,
    i64,
))
    ensures
        (r.0 as int, r.1 as int, r.2 as int, r.3 as int) == target_rect(*area, *m, a),
{
    let t = target_position_wide(
        area.left as i64,
        area.top as i64,
        area.right as i64 - area.left as i64,
        area.bottom as i64 - area.top as i64,
        m,
        a,
    );
    (t.0, t.1, t.0 + t.2, t.1 + t.3)
}

/// The rectangle that action `action` gives a window with border margin
/// `window_margin` on a monitor whose work area is `monitor_rect`.
///
/// An action outside the move-to-position band is placed as the left-top
/// quarter. The result must be made of `i32` coordinates;
/// `implement_move_action_on_window` checks that first.
pub fn calculate_window_rect(
    monitor_rect: &Rect,
    window_margin: &WindowBorderSize,
    action: HotKeyAction,
) -> (r: Rect)
    requires
        target_rect_fits(*monitor_rect, *window_margin, action),
    ensures
        (r.left as int, r.top as int, r.right as int, r.bottom as int) == target_rect(
            *monitor_rect,
            *window_margin,
            action,
        ),
{
    let t = target_rect_wide(monitor_rect, window_margin, action);
    Rect { left: t.0 as i32, top: t.1 as i32, right: t.2 as i32, bottom: t.3 as i32 }
}

/// The position that action `action` gives a window with border margin
/// `window_margin` on the work area of `monitor_info`: the same placement as
/// `calculate_window_rect`, as origin and size.
pub fn calculate_windows_rect(
    monitor_info: &MonitorInfo,
    window_margin: &WindowBorderSize,
    action: HotKeyAction,
) -> (r: WindowPosition)
    requires
        target_position_fits(*monitor_info, *window_margin, action),
    ensures
        (r.left as int, r.top as int, r.width as int, r.height as int) == target_position(
            *monitor_info,
            *window_margin,
            action,
        ),
{
    let t = target_position_wide(
        monitor_info.x_offset as i64,
        monitor_info.y_offset as i64,
        monitor_info.width as i64,
        monitor_info.height as i64,
        window_margin,
        action,
    );
    WindowPosition { left: t.0 as i32, top: t.1 as i32, width: t.2 as i32, height: t.3 as i32 }
}


/// The calculation is a function of its inputs alone: with the same work area,
/// margin and action it gives the same rectangle, however often it is made.
pub proof fn lemma_calculation_deterministic(
    area1: Rect,
    margin1: WindowBorderSize,
    action1: HotKeyAction,
    area2: Rect,
    margin2: WindowBorderSize,
    action2: HotKeyAction,
)
    requires
        area1 == area2,
        margin1 == margin2,
        action1 == action2,
    ensures
        target_rect(area1, margin1, action1) == target_rect(area2, margin2, action2),
{
}

/// The layout of the eight positions on a work area of even width and height,
/// for a window without border margin: the left column starts at the left edge
/// and reaches one pixel past the center, the right column starts one pixel
/// before the center and ends at the right edge, the top and bottom actions
/// span the full width, the top row ends where the bottom row starts (the
/// vertical center), and the middle actions span the full height.
pub proof fn lemma_zero_margin_layout(area: Rect, a: HotKeyAction)
    requires
        area.spec_width() >= 0,
        area.spec_height() >= 0,
        area.spec_width() % 2 == 0,
        area.spec_height() % 2 == 0,
        a.spec_band() == ActionBand::MoveToPosition,
    ensures
        ({
            let m = WindowBorderSize { left: 0, right: 0, top: 0, bottom: 0 };
            let t = target_rect(area, m, a);
            let center_x = area.left + area.spec_width() / 2;
            let center_y = area.top + area.spec_height() / 2;
            &&& spans_full_width(a) ==> t.0 == area.left && t.2 == area.right
            &&& in_right_column(a) ==> t.0 == center_x - 1 && t.2 == area.right
            &&& !spans_full_width(a) && !in_right_column(a) ==> t.0 == area.left && t.2
                == center_x + 1
            &&& spans_full_height(a) ==> t.1 == area.top && t.3 == area.bottom
            &&& in_bottom_row(a) ==> t.1 == center_y && t.3 == area.bottom
            &&& !spans_full_height(a) && !in_bottom_row(a) ==> t.1 == area.top && t.3 == center_y
        }),
{
}

} // verus!
