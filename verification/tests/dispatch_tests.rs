use leftwm_core::BBox;
use leftwm_core::Command;
use leftwm_core::DisplayAction;
use leftwm_core::Manager;
use leftwm_core::Reload;
use leftwm_core::Screen;
use leftwm_core::Window;
use leftwm_core::WindowHandle;
use leftwm_core::WindowType;
use leftwm_core::Workspace;
use leftwm_core::process;
use leftwm_core::screen_create_handler;
use leftwm_core::window_handler;

fn manager_with_windows(tags: &[&str], count: i32) -> Manager {
    let mut manager = Manager::default();
    manager.tags = tags.iter().map(|t| t.to_string()).collect();
    screen_create_handler::process(&mut manager, Screen::default());
    for n in 1..=count {
        let window = Window::new(WindowHandle::MockHandle(n), None);
        window_handler::created(&mut manager, window);
    }
    manager
}

#[test]
fn move_to_tag_round_robin_scenario() {
    // three tags, three windows tagged round-robin in creation order
    let mut manager = Manager::default();
    manager.tags = vec!["A".to_string(), "B".to_string(), "C".to_string()];
    for n in 1..=3 {
        let window = Window::new(WindowHandle::MockHandle(n), None);
        window_handler::created(&mut manager, window);
    }
    assert_eq!(manager.windows[0].tags, vec!["A".to_string()]);
    assert_eq!(manager.windows[1].tags, vec!["B".to_string()]);
    assert_eq!(manager.windows[2].tags, vec!["C".to_string()]);
    // the focused window's tag set becomes exactly {B}
    let res = process(&mut manager, Command::MoveToTag, Some("2".to_string()));
    assert!(res);
    assert_eq!(manager.windows[2].tags, vec!["B".to_string()]);
    assert!(!manager.windows[2].floating);
    // out of range: rejected, nothing changes
    let res = process(&mut manager, Command::MoveToTag, Some("4".to_string()));
    assert!(!res);
    assert_eq!(manager.windows[2].tags, vec!["B".to_string()]);
}

#[test]
fn move_to_tag_rejects_bad_arguments() {
    let mut manager = manager_with_windows(&["A", "B", "C"], 3);
    let actions_before = manager.actions.len();
    for bad in [
        None,
        Some("0".to_string()),
        Some("4".to_string()),
        Some("x".to_string()),
        Some("".to_string()),
    ] {
        let res = process(&mut manager, Command::MoveToTag, bad);
        assert!(!res);
    }
    assert_eq!(manager.actions.len(), actions_before);
    assert_eq!(manager.windows[0].tags, vec!["A".to_string()]);
    assert_eq!(manager.windows[1].tags, vec!["B".to_string()]);
    assert_eq!(manager.windows[2].tags, vec!["C".to_string()]);
}

#[test]
fn goto_tag_rejects_regardless_of_state() {
    // empty manager: no tags at all
    let mut empty = Manager::default();
    assert!(!process(&mut empty, Command::GotoTag, Some("1".to_string())));
    assert!(!process(&mut empty, Command::GotoTag, None));
    // populated manager: same rejections
    let mut manager = manager_with_windows(&["A", "B", "C"], 3);
    assert!(!process(&mut manager, Command::GotoTag, None));
    assert!(!process(&mut manager, Command::GotoTag, Some("abc".to_string())));
    assert!(!process(&mut manager, Command::GotoTag, Some("0".to_string())));
    assert!(!process(&mut manager, Command::GotoTag, Some("4".to_string())));
    assert!(process(&mut manager, Command::GotoTag, Some("3".to_string())));
    assert_eq!(manager.focused_tag(), Some("C".to_string()));
}

#[test]
fn focus_next_tag_without_history_is_rejected() {
    // with no tag ever focused the command is rejected rather than guessing
    let mut manager = manager_with_windows(&["A", "B"], 2);
    assert!(!process(&mut manager, Command::FocusNextTag, None));
    assert!(!process(&mut manager, Command::FocusPreviousTag, None));
    assert_eq!(manager.focused_tag(), None);
}

#[test]
fn close_window_dock_queues_nothing() {
    let mut manager = Manager::default();
    manager.tags = vec!["A".to_string()];
    screen_create_handler::process(&mut manager, Screen::default());
    let mut dock = Window::new(WindowHandle::MockHandle(1), None);
    dock.type_ = WindowType::Dock;
    window_handler::created(&mut manager, dock);
    let res = process(&mut manager, Command::CloseWindow, None);
    assert!(!res);
    assert_eq!(manager.actions.len(), 0);
    assert_eq!(manager.windows.len(), 1);
}

#[test]
fn close_window_normal_queues_one_kill() {
    let mut manager = manager_with_windows(&["A"], 2);
    let res = process(&mut manager, Command::CloseWindow, None);
    assert!(!res);
    assert_eq!(manager.windows.len(), 2);
    assert_eq!(manager.actions.len(), 1);
    assert!(matches!(
        manager.actions[0],
        DisplayAction::KillWindow(WindowHandle::MockHandle(2))
    ));
}

#[test]
fn move_window_top_toggles() {
    // one tag, so all three windows share the focused workspace's group
    let mut manager = manager_with_windows(&["A"], 3);
    // focused window is the last created, at the bottom of the group
    let res = process(&mut manager, Command::MoveWindowTop, None);
    assert!(res);
    assert!(matches!(manager.windows[0].handle, WindowHandle::MockHandle(3)));
    assert_eq!(manager.actions.len(), 1);
    assert!(matches!(
        manager.actions[0],
        DisplayAction::MoveMouseOver(WindowHandle::MockHandle(3))
    ));
    // already on top: it moves to the second position, with no new action
    let res = process(&mut manager, Command::MoveWindowTop, None);
    assert!(res);
    assert!(matches!(manager.windows[0].handle, WindowHandle::MockHandle(1)));
    assert!(matches!(manager.windows[1].handle, WindowHandle::MockHandle(3)));
    assert_eq!(manager.actions.len(), 1);
}

#[test]
fn move_window_up_and_down_wrap() {
    let mut manager = manager_with_windows(&["A"], 3);
    // group [1, 2, 3], focused 3 moves up to the middle
    assert!(process(&mut manager, Command::MoveWindowUp, None));
    let handles: Vec<_> = manager.windows.iter().map(|w| w.handle).collect();
    assert_eq!(
        handles,
        vec![
            WindowHandle::MockHandle(1),
            WindowHandle::MockHandle(3),
            WindowHandle::MockHandle(2),
        ]
    );
    // moving down restores the order
    assert!(process(&mut manager, Command::MoveWindowDown, None));
    let handles: Vec<_> = manager.windows.iter().map(|w| w.handle).collect();
    assert_eq!(
        handles,
        vec![
            WindowHandle::MockHandle(1),
            WindowHandle::MockHandle(2),
            WindowHandle::MockHandle(3),
        ]
    );
    // from the bottom, down wraps to the top
    assert!(process(&mut manager, Command::MoveWindowDown, None));
    let handles: Vec<_> = manager.windows.iter().map(|w| w.handle).collect();
    assert_eq!(
        handles,
        vec![
            WindowHandle::MockHandle(3),
            WindowHandle::MockHandle(1),
            WindowHandle::MockHandle(2),
        ]
    );
}

#[test]
fn focus_window_down_targets_wrapped_neighbour() {
    let mut manager = manager_with_windows(&["A"], 3);
    // focused window 3 is last in the group; its next neighbour wraps to 1
    let res = process(&mut manager, Command::FocusWindowDown, None);
    assert!(res);
    assert_eq!(manager.actions.len(), 1);
    assert!(matches!(
        manager.actions[0],
        DisplayAction::MoveMouseOver(WindowHandle::MockHandle(1))
    ));
    // the order of the windows is untouched
    let handles: Vec<_> = manager.windows.iter().map(|w| w.handle).collect();
    assert_eq!(
        handles,
        vec![
            WindowHandle::MockHandle(1),
            WindowHandle::MockHandle(2),
            WindowHandle::MockHandle(3),
        ]
    );
    let res = process(&mut manager, Command::FocusWindowUp, None);
    assert!(res);
    assert!(matches!(
        manager.actions[1],
        DisplayAction::MoveMouseOver(WindowHandle::MockHandle(2))
    ));
}

#[test]
fn swap_tags_swaps_the_two_most_recent_workspaces() {
    let mut manager = Manager::default();
    for tag in ["A", "B", "C"] {
        let mut ws = Workspace::new(BBox { x: 0, y: 0, width: 100, height: 100 });
        ws.tags = vec![tag.to_string()];
        manager.workspaces.push(ws);
    }
    manager.focused_workspace_history = vec![0, 1];
    let res = process(&mut manager, Command::SwapTags, None);
    assert!(res);
    assert_eq!(manager.workspaces[0].tags, vec!["B".to_string()]);
    assert_eq!(manager.workspaces[1].tags, vec!["A".to_string()]);
    assert_eq!(manager.workspaces[2].tags, vec!["C".to_string()]);
}

#[test]
fn swap_tags_rejects_without_two_workspaces_or_history() {
    // a single workspace is not enough
    let mut manager = Manager::default();
    let mut ws = Workspace::new(BBox { x: 0, y: 0, width: 100, height: 100 });
    ws.tags = vec!["A".to_string()];
    manager.workspaces.push(ws);
    manager.focused_workspace_history = vec![0, 0];
    assert!(!process(&mut manager, Command::SwapTags, None));
    assert_eq!(manager.workspaces[0].tags, vec!["A".to_string()]);
    // two workspaces but too little history
    let mut manager = Manager::default();
    for tag in ["A", "B"] {
        let mut ws = Workspace::new(BBox { x: 0, y: 0, width: 100, height: 100 });
        ws.tags = vec![tag.to_string()];
        manager.workspaces.push(ws);
    }
    manager.focused_workspace_history = vec![0];
    assert!(!process(&mut manager, Command::SwapTags, None));
    assert_eq!(manager.workspaces[0].tags, vec!["A".to_string()]);
    assert_eq!(manager.workspaces[1].tags, vec!["B".to_string()]);
}

#[test]
fn move_to_last_workspace_retags_the_focused_window() {
    let mut manager = Manager::default();
    manager.tags = vec!["A".to_string(), "B".to_string()];
    screen_create_handler::process(&mut manager, Screen::default());
    screen_create_handler::process(&mut manager, Screen::default());
    // focus history now holds [1, 0]: workspace 0 is the previous one
    let mut window = Window::new(WindowHandle::MockHandle(1), None);
    window.tags = vec!["B".to_string()];
    window_handler::created(&mut manager, window);
    let res = process(&mut manager, Command::MoveToLastWorkspace, None);
    assert!(res);
    assert_eq!(manager.windows[0].tags, vec!["A".to_string()]);
}

#[test]
fn move_to_last_workspace_rejects_like_swap_tags() {
    // fewer than two workspaces
    let mut manager = Manager::default();
    manager.tags = vec!["A".to_string()];
    screen_create_handler::process(&mut manager, Screen::default());
    let window = Window::new(WindowHandle::MockHandle(1), None);
    window_handler::created(&mut manager, window);
    manager.focused_workspace_history = vec![0, 0];
    assert!(!process(&mut manager, Command::MoveToLastWorkspace, None));
    assert_eq!(manager.windows[0].tags, vec!["A".to_string()]);
    // fewer than two history entries
    let mut manager = Manager::default();
    manager.tags = vec!["A".to_string(), "B".to_string()];
    screen_create_handler::process(&mut manager, Screen::default());
    screen_create_handler::process(&mut manager, Screen::default());
    let mut window = Window::new(WindowHandle::MockHandle(1), None);
    window.tags = vec!["B".to_string()];
    window_handler::created(&mut manager, window);
    manager.focused_workspace_history = vec![1];
    assert!(!process(&mut manager, Command::MoveToLastWorkspace, None));
    assert_eq!(manager.windows[0].tags, vec!["B".to_string()]);
}

#[test]
fn layout_commands_cycle_the_focused_workspace() {
    let mut manager = manager_with_windows(&["A"], 1);
    assert_eq!(manager.workspaces[0].layout, 0);
    assert!(process(&mut manager, Command::NextLayout, None));
    assert_eq!(manager.workspaces[0].layout, 1);
    assert!(process(&mut manager, Command::PreviousLayout, None));
    assert_eq!(manager.workspaces[0].layout, 0);
    // cycling backward from the first layout wraps to the last
    assert!(process(&mut manager, Command::PreviousLayout, None));
    assert_eq!(manager.workspaces[0].layout, leftwm_core::workspace::LAYOUT_COUNT - 1);
    // without a focused workspace the command is rejected
    let mut bare = Manager::default();
    assert!(!process(&mut bare, Command::NextLayout, None));
}

#[test]
fn focus_workspace_next_focuses_target_and_its_window() {
    let mut manager = Manager::default();
    manager.tags = vec!["A".to_string(), "B".to_string()];
    screen_create_handler::process(&mut manager, Screen::default());
    screen_create_handler::process(&mut manager, Screen::default());
    // current workspace is 1; its neighbour wraps around to 0, showing "A"
    let mut window = Window::new(WindowHandle::MockHandle(7), None);
    window.tags = vec!["A".to_string()];
    window_handler::created(&mut manager, window);
    let actions_before = manager.actions.len();
    let res = process(&mut manager, Command::FocusWorkspaceNext, None);
    assert!(res);
    assert_eq!(manager.focused_workspace_history[0], 0);
    assert_eq!(manager.actions.len(), actions_before + 2);
    assert!(matches!(
        manager.actions[actions_before],
        DisplayAction::MoveMouseOverPoint(_, _)
    ));
    assert!(matches!(
        manager.actions[actions_before + 1],
        DisplayAction::MoveMouseOver(WindowHandle::MockHandle(7))
    ));
    // and back with the mirror command
    let res = process(&mut manager, Command::FocusWorkspacePrevious, None);
    assert!(res);
    assert_eq!(manager.focused_workspace_history[0], 1);
}

#[test]
fn execute_and_mouse_move_touch_nothing() {
    let mut manager = manager_with_windows(&["A"], 1);
    let actions_before = manager.actions.len();
    assert!(!process(&mut manager, Command::Execute, None));
    assert!(!process(&mut manager, Command::Execute, Some("ls".to_string())));
    assert!(!process(&mut manager, Command::MouseMoveWindow, None));
    assert_eq!(manager.actions.len(), actions_before);
    assert_eq!(manager.windows.len(), 1);
    assert_eq!(manager.pending_reload, None);
}

#[test]
fn reload_commands_mark_the_pending_reload() {
    let mut manager = Manager::default();
    assert!(!process(&mut manager, Command::SoftReload, None));
    assert_eq!(manager.pending_reload, Some(Reload::Soft));
    assert!(!process(&mut manager, Command::HardReload, None));
    assert_eq!(manager.pending_reload, Some(Reload::Hard));
}

#[test]
fn numeric_arguments_parse_exactly() {
    assert!(leftwm_core::command_handler::is_num(&Some("12".to_string())));
    assert_eq!(leftwm_core::command_handler::to_num(&Some("12".to_string())), 12);
    assert_eq!(leftwm_core::command_handler::to_num(&Some("007".to_string())), 7);
    assert!(!leftwm_core::command_handler::is_num(&None));
    assert!(!leftwm_core::command_handler::is_num(&Some("".to_string())));
    assert!(!leftwm_core::command_handler::is_num(&Some("+5".to_string())));
    assert!(!leftwm_core::command_handler::is_num(&Some("1a".to_string())));
    assert!(!leftwm_core::command_handler::is_num(&Some(
        "99999999999999999999999999".to_string()
    )));
    assert_eq!(leftwm_core::command_handler::to_num(&Some("x".to_string())), 0);
}
