use win_move::actions::{
    implement_maximize_action_on_window, implement_minimize_action_on_window,
    implement_move_action_on_window, implement_resize_action_on_window, WindowCommand,
};
use win_move::enums::WindowState;
use win_move::geometry::{Rect, WindowBorderSize};
use win_move::hotkey_action::{ActionBand, HotKeyAction};

const ALL_ACTIONS: [(HotKeyAction, u32); 30] = [
    (HotKeyAction::MoveWindowToLeftBottom, 1001),
    (HotKeyAction::MoveWindowToBottom, 1002),
    (HotKeyAction::MoveWindowToRightBottom, 1003),
    (HotKeyAction::MoveWindowToLeftMiddle, 1004),
    (HotKeyAction::MoveWindowToRightMiddle, 1006),
    (HotKeyAction::MoveWindowToLeftTop, 1007),
    (HotKeyAction::MoveWindowToTop, 1008),
    (HotKeyAction::MoveWindowToRightTop, 1009),
    (HotKeyAction::MinimizeWindow, 2001),
    (HotKeyAction::MaximizeWindow, 2002),
    (HotKeyAction::MoveWindowToLeftScreen, 2003),
    (HotKeyAction::MoveWindowToRightScreen, 2004),
    (HotKeyAction::MoveWindowToLeftScreenContinuous, 2005),
    (HotKeyAction::MoveWindowToRightScreenContinuous, 2006),
    (HotKeyAction::ChangeWindowSizeTowardsLeftBottom, 4001),
    (HotKeyAction::ChangeWindowSizeTowardsBottom, 4002),
    (HotKeyAction::ChangeWindowSizeTowardsRightBottom, 4003),
    (HotKeyAction::ChangeWindowSizeTowardsLeftMiddle, 4004),
    (HotKeyAction::ChangeWindowSizeTowardsRightMiddle, 4005),
    (HotKeyAction::ChangeWindowSizeTowardsLeftTop, 4006),
    (HotKeyAction::ChangeWindowSizeTowardsTop, 4007),
    (HotKeyAction::ChangeWindowSizeTowardsRightTop, 4008),
    (HotKeyAction::ChangeWindowSizeTowardsLeftBottomHistoryAware, 5001),
    (HotKeyAction::ChangeWindowSizeTowardsBottomHistoryAware, 5002),
    (HotKeyAction::ChangeWindowSizeTowardsRightBottomHistoryAware, 5003),
    (HotKeyAction::ChangeWindowSizeTowardsLeftMiddleHistoryAware, 5004),
    (HotKeyAction::ChangeWindowSizeTowardsRightMiddleHistoryAware, 5005),
    (HotKeyAction::ChangeWindowSizeTowardsLeftTopHistoryAware, 5006),
    (HotKeyAction::ChangeWindowSizeTowardsTopHistoryAware, 5007),
    (HotKeyAction::ChangeWindowSizeTowardsRightTopHistoryAware, 5008),
];

#[test]
fn action_codes_round_trip() {
    for (action, code) in ALL_ACTIONS {
        assert_eq!(action.to_u32(), code);
        assert_eq!(HotKeyAction::from_u32(code), Some(action));
    }
}

#[test]
fn unknown_action_codes_are_rejected() {
    for code in [0, 1000, 1005, 1010, 2000, 2007, 3001, 4009, 5009, 6001, u32::MAX] {
        assert_eq!(HotKeyAction::from_u32(code), None);
    }
}

#[test]
fn action_bands_follow_code_ranges() {
    for (action, code) in ALL_ACTIONS {
        let expected = if code <= 1009 {
            ActionBand::MoveToPosition
        } else if code == 2001 {
            ActionBand::ToggleMinimize
        } else if code == 2002 {
            ActionBand::ToggleMaximize
        } else if code <= 2006 {
            ActionBand::MoveToOtherScreen
        } else if code <= 4008 {
            ActionBand::Resize
        } else {
            ActionBand::ResizeHistoryAware
        };
        assert_eq!(action.band(), expected);
    }
}

#[test]
fn minimize_toggles() {
    assert_eq!(implement_minimize_action_on_window(WindowState::Minimized), WindowCommand::Restore);
    assert_eq!(implement_minimize_action_on_window(WindowState::Normal), WindowCommand::Minimize);
    assert_eq!(implement_minimize_action_on_window(WindowState::Maximized), WindowCommand::Minimize);
    assert_eq!(implement_minimize_action_on_window(WindowState::Other), WindowCommand::Minimize);
}

#[test]
fn maximize_toggles() {
    assert_eq!(implement_maximize_action_on_window(WindowState::Maximized), WindowCommand::Restore);
    assert_eq!(implement_maximize_action_on_window(WindowState::Normal), WindowCommand::Maximize);
    assert_eq!(implement_maximize_action_on_window(WindowState::Minimized), WindowCommand::Maximize);
    assert_eq!(implement_maximize_action_on_window(WindowState::Other), WindowCommand::Maximize);
}

#[test]
fn move_action_disables_snapping_then_moves() {
    let area = Rect { left: 0, top: 0, right: 1920, bottom: 1170 };
    let margin = WindowBorderSize { left: -7, right: 7, top: 0, bottom: 7 };
    let cmds =
        implement_move_action_on_window(&area, &margin, HotKeyAction::MoveWindowToRightBottom)
            .unwrap();
    assert_eq!(
        cmds,
        vec![
            WindowCommand::DisableSnapping,
            WindowCommand::Move(Rect { left: 952, top: 585, right: 1927, bottom: 1179 }),
        ]
    );
}

#[test]
fn move_action_out_of_range_is_refused() {
    let area = Rect { left: i32::MAX - 10, top: 0, right: i32::MAX, bottom: 100 };
    let margin = WindowBorderSize { left: 0, right: 100, top: 0, bottom: 0 };
    assert_eq!(
        implement_move_action_on_window(&area, &margin, HotKeyAction::MoveWindowToRightTop),
        None
    );
}

#[test]
fn resize_actions_issue_no_command() {
    assert!(implement_resize_action_on_window(HotKeyAction::ChangeWindowSizeTowardsTop).is_empty());
    assert!(implement_resize_action_on_window(
        HotKeyAction::ChangeWindowSizeTowardsLeftBottomHistoryAware
    )
    .is_empty());
}
