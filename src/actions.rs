//! The decisions of the action handlers: which commands the focused window gets.
//!
//! Each handler takes what was queried from the window and its monitor and
//! returns the commands to issue, in order. The platform backend queries and
//! issues them; no state is kept between two hotkey events.

use vstd::prelude::*;
use crate::calculation::{calculate_window_rect, target_rect, target_rect_fits, target_rect_wide};
use crate::enums::WindowState;
use crate::geometry::{Rect, WindowBorderSize};
use crate::hotkey_action::{ActionBand, HotKeyAction};

verus! {

/// A command to the focused window.
#[derive(Clone, Copy, Debug, PartialEq, Eq, Structural)]
pub enum WindowCommand {
    /// Move and resize the window to the rectangle.
    Move(Rect),
    /// Restore the window from the minimized or maximized state.
    Restore,
    /// Minimize the window.
    Minimize,
    /// Maximize the window.
    Maximize,
    /// Turn off the platform's snap assist, which would override an explicit placement.
    DisableSnapping,
}

/// What the minimize hotkey does to a window in `state`.
pub open spec fn minimize_toggle(state: WindowState) -> WindowCommand {
    if state == WindowState::Minimized {
        WindowCommand::Restore
    } else {
        WindowCommand::Minimize
    }
}

/// What the maximize hotkey does to a window in `state`.
pub open spec fn maximize_toggle(state: WindowState) -> WindowCommand {
    if state == WindowState::Maximized {
        WindowCommand::Restore
    } else {
        WindowCommand::Maximize
    }
}

/// The minimize toggle: a minimized window is restored, any other is minimized.
pub fn implement_minimize_action_on_window(window_state: WindowState) -> (c: WindowCommand)
    ensures
        c == minimize_toggle(window_state),
{
    match window_state {
        WindowState::Minimized => WindowCommand::Restore,
        _ => WindowCommand::Minimize,
    }
}

/// The maximize toggle: a maximized window is restored, any other is maximized.
pub fn implement_maximize_action_on_window(window_state: WindowState) -> (c: WindowCommand)
    ensures
        c == maximize_toggle(window_state),
{
    match window_state {
        WindowState::Maximized => WindowCommand::Restore,
        _ => WindowCommand::Maximize,
    }
}

/// A move to a position on the current monitor: snapping is turned off, then the
/// window is moved to the rectangle that the action gives on the work area
/// `monitor_rect`. `None` where that rectangle leaves `i32` coordinates.
pub fn implement_move_action_on_window(
    monitor_rect: &Rect,
    window_margin: &WindowBorderSize,
    action: HotKeyAction,
) -> (r: Option<Vec<WindowCommand>>)
    ensures
        r is Some <==> target_rect_fits(*monitor_rect, *window_margin, action),
        r matches Some(cmds) ==> {
            let t = target_rect(*monitor_rect, *window_margin, action);
            &&& cmds@.len() == 2
            &&& cmds@[0] == WindowCommand::DisableSnapping
            &&& cmds@[1] matches WindowCommand::Move(rect)
            &&& (rect.left as int, rect.top as int, rect.right as int, rect.bottom as int) == t
        },
{
    if !rect_target_fits(monitor_rect, window_margin, action) {
        return None;
    }
    let target = calculate_window_rect(monitor_rect, window_margin, action);
    let mut cmds: Vec<WindowCommand> = Vec::new();
    cmds.push(WindowCommand::DisableSnapping);
    cmds.push(WindowCommand::Move(target));
    Some(cmds)
}

/// Whether the target of `action` on `area` is made of `i32` coordinates.
fn rect_target_fits(area: &Rect, m: &WindowBorderSize, action: HotKeyAction) -> (r: bool)
    ensures
        r == target_rect_fits(*area, *m, action),
{
    let t = target_rect_wide(area, m, action);
    let lo = i32::MIN as i64;
    let hi = i32::MAX as i64;
    lo <= t.0 && t.0 <= hi && lo <= t.1 && t.1 <= hi && lo <= t.2 && t.2 <= hi && lo <= t.3 && t.3
        <= hi
}

/// A resize: not carried out yet, so the window gets no command.
pub fn implement_resize_action_on_window(action: HotKeyAction) -> (r: Vec<WindowCommand>)
    requires
        action.spec_band() == ActionBand::Resize || action.spec_band()
            == ActionBand::ResizeHistoryAware,
    ensures
        r@.len() == 0,
{
    Vec::new()
}

} // verus!
