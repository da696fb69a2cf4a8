use win_move::actions::WindowCommand;
use win_move::enums::WindowState;
use win_move::geometry::{DpiInfo, MonitorInfo, Rect};
use win_move::relocation::{
    implement_move_action_to_another_screen, relocate_rect, sort_monitors_by_left, Relocation,
    RelocationError,
};

fn monitor(handle: isize, x_offset: i32, width: i32, height: i32, dpi: u32) -> MonitorInfo {
    MonitorInfo {
        width,
        height,
        x_offset,
        y_offset: 0,
        platform_specific_handle: handle,
        dpi: DpiInfo { x: dpi, y: dpi },
    }
}

#[test]
fn monitors_sorted_by_left_edge_ties_kept_in_order() {
    let a = monitor(1, 0, 1920, 1080, 96);
    let b = monitor(2, 1920, 1280, 1024, 96);
    let c = monitor(3, -1920, 1920, 1080, 96);
    let d = monitor(4, 0, 800, 600, 96);
    let sorted = sort_monitors_by_left(&vec![b, a, c, d]);
    assert_eq!(sorted, vec![c, a, d, b]);
    assert!(sort_monitors_by_left(&vec![]).is_empty());
}

#[test]
fn ring_wraps_from_leftmost_to_rightmost() {
    let left = monitor(10, -1920, 1920, 1080, 96);
    let middle = monitor(20, 0, 1920, 1080, 96);
    let right = monitor(30, 1920, 1920, 1080, 96);
    let monitors = vec![middle, right, left];
    let from_left =
        implement_move_action_to_another_screen(&monitors, &left, WindowState::Normal).unwrap();
    assert_eq!(
        from_left,
        Relocation::Relocate { source: left, target: right, state: WindowState::Normal }
    );
    let from_right =
        implement_move_action_to_another_screen(&monitors, &right, WindowState::Normal).unwrap();
    assert_eq!(
        from_right,
        Relocation::Relocate { source: right, target: middle, state: WindowState::Normal }
    );
    let from_middle =
        implement_move_action_to_another_screen(&monitors, &middle, WindowState::Normal).unwrap();
    assert_eq!(
        from_middle,
        Relocation::Relocate { source: middle, target: left, state: WindowState::Normal }
    );
}

#[test]
fn single_monitor_is_a_no_op() {
    let only = monitor(1, 0, 1920, 1080, 96);
    let plan =
        implement_move_action_to_another_screen(&vec![only], &only, WindowState::Maximized)
            .unwrap();
    assert_eq!(plan, Relocation::Stay);
    assert!(plan.prepare().is_empty());
    let window = Rect { left: 0, top: 0, right: 1920, bottom: 1080 };
    assert_eq!(plan.finish(&window), Ok(vec![]));
}

#[test]
fn unknown_monitor_is_an_error() {
    let a = monitor(1, 0, 1920, 1080, 96);
    let b = monitor(2, 1920, 1920, 1080, 96);
    let stale = monitor(99, 0, 1920, 1080, 96);
    assert_eq!(
        implement_move_action_to_another_screen(&vec![a, b], &stale, WindowState::Normal),
        Err(RelocationError::MonitorNotFound)
    );
    assert_eq!(
        implement_move_action_to_another_screen(&vec![], &stale, WindowState::Normal),
        Err(RelocationError::MonitorNotFound)
    );
}

#[test]
fn maximized_window_is_maximized_again() {
    let a = monitor(1, 0, 1920, 1080, 96);
    let b = monitor(2, 1920, 1920, 1080, 96);
    let plan =
        implement_move_action_to_another_screen(&vec![a, b], &b, WindowState::Maximized).unwrap();
    assert_eq!(plan.prepare(), vec![WindowCommand::Restore]);
    let window = Rect { left: 2020, top: 100, right: 2920, bottom: 700 };
    let moved = Rect { left: 100, top: 100, right: 1000, bottom: 700 };
    assert_eq!(
        plan.finish(&window),
        Ok(vec![WindowCommand::Move(moved), WindowCommand::Maximize])
    );
}

#[test]
fn minimized_window_is_minimized_again() {
    let a = monitor(1, 0, 1920, 1080, 96);
    let b = monitor(2, 1920, 1920, 1080, 96);
    let plan =
        implement_move_action_to_another_screen(&vec![a, b], &a, WindowState::Minimized).unwrap();
    assert_eq!(plan.prepare(), vec![WindowCommand::Restore]);
    let window = Rect { left: 0, top: 0, right: 960, bottom: 540 };
    let moved = Rect { left: 1920, top: 0, right: 2880, bottom: 540 };
    assert_eq!(
        plan.finish(&window),
        Ok(vec![WindowCommand::Move(moved), WindowCommand::Minimize])
    );
}

#[test]
fn normal_window_gets_no_state_change() {
    let a = monitor(1, 0, 1920, 1080, 96);
    let b = monitor(2, 1920, 1920, 1080, 96);
    let plan =
        implement_move_action_to_another_screen(&vec![a, b], &a, WindowState::Normal).unwrap();
    assert!(plan.prepare().is_empty());
    let window = Rect { left: 0, top: 0, right: 960, bottom: 540 };
    let moved = Rect { left: 1920, top: 0, right: 2880, bottom: 540 };
    assert_eq!(plan.finish(&window), Ok(vec![WindowCommand::Move(moved)]));
}

#[test]
fn scaling_change_repeats_the_move() {
    let a = monitor(1, 0, 1920, 1080, 96);
    let b = monitor(2, 1920, 3840, 2160, 144);
    let plan =
        implement_move_action_to_another_screen(&vec![a, b], &a, WindowState::Normal).unwrap();
    let window = Rect { left: 480, top: 270, right: 1440, bottom: 810 };
    let moved = Rect { left: 2880, top: 540, right: 4800, bottom: 1620 };
    assert_eq!(
        plan.finish(&window),
        Ok(vec![WindowCommand::Move(moved), WindowCommand::Move(moved)])
    );
}

#[test]
fn half_window_keeps_its_ratios() {
    let a = monitor(1, 0, 1920, 1080, 96);
    let right_half = Rect { left: 960, top: 0, right: 1920, bottom: 1080 };
    let b = monitor(2, -1280, 1280, 1024, 96);
    assert_eq!(
        relocate_rect(&right_half, &a, &b),
        Some(Rect { left: -640, top: 0, right: 0, bottom: 1024 })
    );
    let odd = monitor(3, 1920, 1281, 777, 96);
    assert_eq!(
        relocate_rect(&right_half, &a, &odd),
        Some(Rect { left: 2560, top: 0, right: 3200, bottom: 777 })
    );
}

#[test]
fn relocated_rect_scales_offsets_and_extents() {
    let a = monitor(1, 0, 1000, 500, 96);
    let b = MonitorInfo { y_offset: 20, ..monitor(2, 1000, 2000, 1000, 96) };
    let window = Rect { left: 100, top: 50, right: 500, bottom: 350 };
    assert_eq!(
        relocate_rect(&window, &a, &b),
        Some(Rect { left: 1200, top: 120, right: 2000, bottom: 720 })
    );
    // Offsets count by their magnitude, and results are rounded down.
    let left_of_area = Rect { left: -30, top: 0, right: 70, bottom: 100 };
    let c = monitor(3, 0, 333, 500, 96);
    assert_eq!(
        relocate_rect(&left_of_area, &a, &c),
        Some(Rect { left: 9, top: 0, right: 42, bottom: 100 })
    );
}

#[test]
fn relocation_out_of_range_is_an_error() {
    let a = monitor(1, 0, 10, 10, 96);
    let b = monitor(2, i32::MAX - 100, 100, 100, 96);
    let plan =
        implement_move_action_to_another_screen(&vec![a, b], &a, WindowState::Normal).unwrap();
    let window = Rect { left: 5, top: 0, right: 100, bottom: 10 };
    assert_eq!(plan.finish(&window), Err(RelocationError::OutOfRange));
    assert_eq!(relocate_rect(&window, &a, &b), None);
}
