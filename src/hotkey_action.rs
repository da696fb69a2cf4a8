//! The closed set of hotkey actions, their numeric codes and their bands.

use vstd::prelude::*;

verus! {

/// The operations that a hotkey can trigger.
///
/// The variants fall into bands: moves to a position on the current monitor,
/// the minimize and maximize toggles, moves to another monitor, and resizes
/// (plain and history-aware). Each variant has a numeric code (`to_u32`), by
/// which hotkeys are registered with the platform.
#[derive(Clone, Copy, Debug, PartialEq, Eq, Structural)]
pub enum HotKeyAction {
    // Move the window to a position on its monitor
    MoveWindowToLeftBottom,
    MoveWindowToBottom,
    MoveWindowToRightBottom,
    MoveWindowToLeftMiddle,
    MoveWindowToRightMiddle,
    MoveWindowToLeftTop,
    MoveWindowToTop,
    MoveWindowToRightTop,
    // Window state toggles
    MinimizeWindow,
    MaximizeWindow,
    // Move the window to another monitor
    MoveWindowToLeftScreen,
    MoveWindowToRightScreen,
    MoveWindowToLeftScreenContinuous,
    MoveWindowToRightScreenContinuous,
    // Change the window's size
    ChangeWindowSizeTowardsLeftBottom,
    ChangeWindowSizeTowardsBottom,
    ChangeWindowSizeTowardsRightBottom,
    ChangeWindowSizeTowardsLeftMiddle,
    ChangeWindowSizeTowardsRightMiddle,
    ChangeWindowSizeTowardsLeftTop,
    ChangeWindowSizeTowardsTop,
    ChangeWindowSizeTowardsRightTop,
    // Change the focused window's size, and the others' in turn
    ChangeWindowSizeTowardsLeftBottomHistoryAware,
    ChangeWindowSizeTowardsBottomHistoryAware,
    ChangeWindowSizeTowardsRightBottomHistoryAware,
    ChangeWindowSizeTowardsLeftMiddleHistoryAware,
    ChangeWindowSizeTowardsRightMiddleHistoryAware,
    ChangeWindowSizeTowardsLeftTopHistoryAware,
    ChangeWindowSizeTowardsTopHistoryAware,
    ChangeWindowSizeTowardsRightTopHistoryAware,
}

/// The band of an action, which decides the handler that carries it out.
#[derive(Clone, Copy, Debug, PartialEq, Eq, Structural)]
pub enum ActionBand {
    /// Place the window on a part of its current monitor.
    MoveToPosition,
    /// Minimize the window, or restore it if it is minimized.
    ToggleMinimize,
    /// Maximize the window, or restore it if it is maximized.
    ToggleMaximize,
    /// Move the window to the neighbouring monitor.
    MoveToOtherScreen,
    /// Resize the window (not carried out yet).
    Resize,
    /// Resize the window with regard to the others (not carried out yet).
    ResizeHistoryAware,
}

impl HotKeyAction {
    /// The numeric code of an action.
    pub open spec fn spec_code(self) -> u32 {
        match self {
            HotKeyAction::MoveWindowToLeftBottom => 1001,
            HotKeyAction::MoveWindowToBottom => 1002,
            HotKeyAction::MoveWindowToRightBottom => 1003,
            HotKeyAction::MoveWindowToLeftMiddle => 1004,
            HotKeyAction::MoveWindowToRightMiddle => 1006,
            HotKeyAction::MoveWindowToLeftTop => 1007,
            HotKeyAction::MoveWindowToTop => 1008,
            HotKeyAction::MoveWindowToRightTop => 1009,
            HotKeyAction::MinimizeWindow => 2001,
            HotKeyAction::MaximizeWindow => 2002,
            HotKeyAction::MoveWindowToLeftScreen => 2003,
            HotKeyAction::MoveWindowToRightScreen => 2004,
            HotKeyAction::MoveWindowToLeftScreenContinuous => 2005,
            HotKeyAction::MoveWindowToRightScreenContinuous => 2006,
            HotKeyAction::ChangeWindowSizeTowardsLeftBottom => 4001,
            HotKeyAction::ChangeWindowSizeTowardsBottom => 4002,
            HotKeyAction::ChangeWindowSizeTowardsRightBottom => 4003,
            HotKeyAction::ChangeWindowSizeTowardsLeftMiddle => 4004,
            HotKeyAction::ChangeWindowSizeTowardsRightMiddle => 4005,
            HotKeyAction::ChangeWindowSizeTowardsLeftTop => 4006,
            HotKeyAction::ChangeWindowSizeTowardsTop => 4007,
            HotKeyAction::ChangeWindowSizeTowardsRightTop => 4008,
            HotKeyAction::ChangeWindowSizeTowardsLeftBottomHistoryAware => 5001,
            HotKeyAction::ChangeWindowSizeTowardsBottomHistoryAware => 5002,
            HotKeyAction::ChangeWindowSizeTowardsRightBottomHistoryAware => 5003,
            HotKeyAction::ChangeWindowSizeTowardsLeftMiddleHistoryAware => 5004,
            HotKeyAction::ChangeWindowSizeTowardsRightMiddleHistoryAware => 5005,
            HotKeyAction::ChangeWindowSizeTowardsLeftTopHistoryAware => 5006,
            HotKeyAction::ChangeWindowSizeTowardsTopHistoryAware => 5007,
            HotKeyAction::ChangeWindowSizeTowardsRightTopHistoryAware => 5008,
        }
    }

    /// The band that an action belongs to.
    pub open spec fn spec_band(self) -> ActionBand {
        match self {
            HotKeyAction::MoveWindowToLeftBottom => ActionBand::MoveToPosition,
            HotKeyAction::MoveWindowToBottom => ActionBand::MoveToPosition,
            HotKeyAction::MoveWindowToRightBottom => ActionBand::MoveToPosition,
            HotKeyAction::MoveWindowToLeftMiddle => ActionBand::MoveToPosition,
            HotKeyAction::MoveWindowToRightMiddle => ActionBand::MoveToPosition,
            HotKeyAction::MoveWindowToLeftTop => ActionBand::MoveToPosition,
            HotKeyAction::MoveWindowToTop => ActionBand::MoveToPosition,
            HotKeyAction::MoveWindowToRightTop => ActionBand::MoveToPosition,
            HotKeyAction::MinimizeWindow => ActionBand::ToggleMinimize,
            HotKeyAction::MaximizeWindow => ActionBand::ToggleMaximize,
            HotKeyAction::MoveWindowToLeftScreen => ActionBand::MoveToOtherScreen,
            HotKeyAction::MoveWindowToRightScreen => ActionBand::MoveToOtherScreen,
            HotKeyAction::MoveWindowToLeftScreenContinuous => ActionBand::MoveToOtherScreen,
            HotKeyAction::MoveWindowToRightScreenContinuous => ActionBand::MoveToOtherScreen,
            HotKeyAction::ChangeWindowSizeTowardsLeftBottom => ActionBand::Resize,
            HotKeyAction::ChangeWindowSizeTowardsBottom => ActionBand::Resize,
            HotKeyAction::ChangeWindowSizeTowardsRightBottom => ActionBand::Resize,
            HotKeyAction::ChangeWindowSizeTowardsLeftMiddle => ActionBand::Resize,
            HotKeyAction::ChangeWindowSizeTowardsRightMiddle => ActionBand::Resize,
            HotKeyAction::ChangeWindowSizeTowardsLeftTop => ActionBand::Resize,
            HotKeyAction::ChangeWindowSizeTowardsTop => ActionBand::Resize,
            HotKeyAction::ChangeWindowSizeTowardsRightTop => ActionBand::Resize,
            HotKeyAction::ChangeWindowSizeTowardsLeftBottomHistoryAware => ActionBand::ResizeHistoryAware,
            HotKeyAction::ChangeWindowSizeTowardsBottomHistoryAware => ActionBand::ResizeHistoryAware,
            HotKeyAction::ChangeWindowSizeTowardsRightBottomHistoryAware => ActionBand::ResizeHistoryAware,
            HotKeyAction::ChangeWindowSizeTowardsLeftMiddleHistoryAware => ActionBand::ResizeHistoryAware,
            HotKeyAction::ChangeWindowSizeTowardsRightMiddleHistoryAware => ActionBand::ResizeHistoryAware,
            HotKeyAction::ChangeWindowSizeTowardsLeftTopHistoryAware => ActionBand::ResizeHistoryAware,
            HotKeyAction::ChangeWindowSizeTowardsTopHistoryAware => ActionBand::ResizeHistoryAware,
            HotKeyAction::ChangeWindowSizeTowardsRightTopHistoryAware => ActionBand::ResizeHistoryAware,
        }
    }

    /// The numeric code of this action.
    pub fn to_u32(&self) -> (r: u32)
        ensures
            r == self.spec_code(),
    {
        match self {
            HotKeyAction::MoveWindowToLeftBottom => 1001,
            HotKeyAction::MoveWindowToBottom => 1002,
            HotKeyAction::MoveWindowToRightBottom => 1003,
            HotKeyAction::MoveWindowToLeftMiddle => 1004,
            HotKeyAction::MoveWindowToRightMiddle => 1006,
            HotKeyAction::MoveWindowToLeftTop => 1007,
            HotKeyAction::MoveWindowToTop => 1008,
            HotKeyAction::MoveWindowToRightTop => 1009,
            HotKeyAction::MinimizeWindow => 2001,
            HotKeyAction::MaximizeWindow => 2002,
            HotKeyAction::MoveWindowToLeftScreen => 2003,
            HotKeyAction::MoveWindowToRightScreen => 2004,
            HotKeyAction::MoveWindowToLeftScreenContinuous => 2005,
            HotKeyAction::MoveWindowToRightScreenContinuous => 2006,
            HotKeyAction::ChangeWindowSizeTowardsLeftBottom => 4001,
            HotKeyAction::ChangeWindowSizeTowardsBottom => 4002,
            HotKeyAction::ChangeWindowSizeTowardsRightBottom => 4003,
            HotKeyAction::ChangeWindowSizeTowardsLeftMiddle => 4004,
            HotKeyAction::ChangeWindowSizeTowardsRightMiddle => 4005,
            HotKeyAction::ChangeWindowSizeTowardsLeftTop => 4006,
            HotKeyAction::ChangeWindowSizeTowardsTop => 4007,
            HotKeyAction::ChangeWindowSizeTowardsRightTop => 4008,
            HotKeyAction::ChangeWindowSizeTowardsLeftBottomHistoryAware => 5001,
            HotKeyAction::ChangeWindowSizeTowardsBottomHistoryAware => 5002,
            HotKeyAction::ChangeWindowSizeTowardsRightBottomHistoryAware => 5003,
            HotKeyAction::ChangeWindowSizeTowardsLeftMiddleHistoryAware => 5004,
            HotKeyAction::ChangeWindowSizeTowardsRightMiddleHistoryAware => 5005,
            HotKeyAction::ChangeWindowSizeTowardsLeftTopHistoryAware => 5006,
            HotKeyAction::ChangeWindowSizeTowardsTopHistoryAware => 5007,
            HotKeyAction::ChangeWindowSizeTowardsRightTopHistoryAware => 5008,
        }
    }

    /// The action with code `v`, or `None` where no action has that code.
    pub fn from_u32(v: u32) -> (r: Option<HotKeyAction>)
        ensures
            r matches Some(a) ==> a.spec_code() == v,
            r is None ==> forall|a: HotKeyAction| #[trigger] a.spec_code() != v,
    {
        match v {
            1001 => Some(HotKeyAction::MoveWindowToLeftBottom),
            1002 => Some(HotKeyAction::MoveWindowToBottom),
            1003 => Some(HotKeyAction::MoveWindowToRightBottom),
            1004 => Some(HotKeyAction::MoveWindowToLeftMiddle),
            1006 => Some(HotKeyAction::MoveWindowToRightMiddle),
            1007 => Some(HotKeyAction::MoveWindowToLeftTop),
            1008 => Some(HotKeyAction::MoveWindowToTop),
            1009 => Some(HotKeyAction::MoveWindowToRightTop),
            2001 => Some(HotKeyAction::MinimizeWindow),
            2002 => Some(HotKeyAction::MaximizeWindow),
            2003 => Some(HotKeyAction::MoveWindowToLeftScreen),
            2004 => Some(HotKeyAction::MoveWindowToRightScreen),
            2005 => Some(HotKeyAction::MoveWindowToLeftScreenContinuous),
            2006 => Some(HotKeyAction::MoveWindowToRightScreenContinuous),
            4001 => Some(HotKeyAction::ChangeWindowSizeTowardsLeftBottom),
            4002 => Some(HotKeyAction::ChangeWindowSizeTowardsBottom),
            4003 => Some(HotKeyAction::ChangeWindowSizeTowardsRightBottom),
            4004 => Some(HotKeyAction::ChangeWindowSizeTowardsLeftMiddle),
            4005 => Some(HotKeyAction::ChangeWindowSizeTowardsRightMiddle),
            4006 => Some(HotKeyAction::ChangeWindowSizeTowardsLeftTop),
            4007 => Some(HotKeyAction::ChangeWindowSizeTowardsTop),
            4008 => Some(HotKeyAction::ChangeWindowSizeTowardsRightTop),
            5001 => Some(HotKeyAction::ChangeWindowSizeTowardsLeftBottomHistoryAware),
            5002 => Some(HotKeyAction::ChangeWindowSizeTowardsBottomHistoryAware),
            5003 => Some(HotKeyAction::ChangeWindowSizeTowardsRightBottomHistoryAware),
            5004 => Some(HotKeyAction::ChangeWindowSizeTowardsLeftMiddleHistoryAware),
            5005 => Some(HotKeyAction::ChangeWindowSizeTowardsRightMiddleHistoryAware),
            5006 => Some(HotKeyAction::ChangeWindowSizeTowardsLeftTopHistoryAware),
            5007 => Some(HotKeyAction::ChangeWindowSizeTowardsTopHistoryAware),
            5008 => Some(HotKeyAction::ChangeWindowSizeTowardsRightTopHistoryAware),
            _ => None,
        }
    }

    /// The band of this action.
    pub fn band(&self) -> (r: ActionBand)
        ensures
            r == self.spec_band(),
    {
        match self {
            HotKeyAction::MoveWindowToLeftBottom => ActionBand::MoveToPosition,
            HotKeyAction::MoveWindowToBottom => ActionBand::MoveToPosition,
            HotKeyAction::MoveWindowToRightBottom => ActionBand::MoveToPosition,
            HotKeyAction::MoveWindowToLeftMiddle => ActionBand::MoveToPosition,
            HotKeyAction::MoveWindowToRightMiddle => ActionBand::MoveToPosition,
            HotKeyAction::MoveWindowToLeftTop => ActionBand::MoveToPosition,
            HotKeyAction::MoveWindowToTop => ActionBand::MoveToPosition,
            HotKeyAction::MoveWindowToRightTop => ActionBand::MoveToPosition,
            HotKeyAction::MinimizeWindow => ActionBand::ToggleMinimize,
            HotKeyAction::MaximizeWindow => ActionBand::ToggleMaximize,
            HotKeyAction::MoveWindowToLeftScreen => ActionBand::MoveToOtherScreen,
            HotKeyAction::MoveWindowToRightScreen => ActionBand::MoveToOtherScreen,
            HotKeyAction::MoveWindowToLeftScreenContinuous => ActionBand::MoveToOtherScreen,
            HotKeyAction::MoveWindowToRightScreenContinuous => ActionBand::MoveToOtherScreen,
            HotKeyAction::ChangeWindowSizeTowardsLeftBottom => ActionBand::Resize,
            HotKeyAction::ChangeWindowSizeTowardsBottom => ActionBand::Resize,
            HotKeyAction::ChangeWindowSizeTowardsRightBottom => ActionBand::Resize,
            HotKeyAction::ChangeWindowSizeTowardsLeftMiddle => ActionBand::Resize,
            HotKeyAction::ChangeWindowSizeTowardsRightMiddle => ActionBand::Resize,
            HotKeyAction::ChangeWindowSizeTowardsLeftTop => ActionBand::Resize,
            HotKeyAction::ChangeWindowSizeTowardsTop => ActionBand::Resize,
            HotKeyAction::ChangeWindowSizeTowardsRightTop => ActionBand::Resize,
            HotKeyAction::ChangeWindowSizeTowardsLeftBottomHistoryAware => ActionBand::ResizeHistoryAware,
            HotKeyAction::ChangeWindowSizeTowardsBottomHistoryAware => ActionBand::ResizeHistoryAware,
            HotKeyAction::ChangeWindowSizeTowardsRightBottomHistoryAware => ActionBand::ResizeHistoryAware,
            HotKeyAction::ChangeWindowSizeTowardsLeftMiddleHistoryAware => ActionBand::ResizeHistoryAware,
            HotKeyAction::ChangeWindowSizeTowardsRightMiddleHistoryAware => ActionBand::ResizeHistoryAware,
            HotKeyAction::ChangeWindowSizeTowardsLeftTopHistoryAware => ActionBand::ResizeHistoryAware,
            HotKeyAction::ChangeWindowSizeTowardsTopHistoryAware => ActionBand::ResizeHistoryAware,
            HotKeyAction::ChangeWindowSizeTowardsRightTopHistoryAware => ActionBand::ResizeHistoryAware,
        }
    }
}

/// Distinct actions have distinct codes, so a code names at most one action.
pub proof fn lemma_code_injective(a: HotKeyAction, b: HotKeyAction)
    ensures
        a.spec_code() == b.spec_code() ==> a == b,
{
}

/// The band of an action is decided by comparing its code with the band's range:
/// the codes of each band form one interval, and the intervals follow the order
/// of the bands.
pub proof fn lemma_band_by_code(a: HotKeyAction)
    ensures
        a.spec_band() == ActionBand::MoveToPosition <==> a.spec_code() <= 1009,
        a.spec_band() == ActionBand::ToggleMinimize <==> a.spec_code() == 2001,
        a.spec_band() == ActionBand::ToggleMaximize <==> a.spec_code() == 2002,
        a.spec_band() == ActionBand::MoveToOtherScreen <==> 2003 <= a.spec_code() <= 2006,
        a.spec_band() == ActionBand::Resize <==> 4001 <= a.spec_code() <= 4008,
        a.spec_band() == ActionBand::ResizeHistoryAware <==> 5001 <= a.spec_code() <= 5008,
{
}

} // verus!
