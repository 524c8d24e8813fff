use leftwm_core::BBox;
use leftwm_core::Command;
use leftwm_core::DisplayAction;
use leftwm_core::Manager;
use leftwm_core::Screen;
use leftwm_core::Window;
use leftwm_core::WindowHandle;
use leftwm_core::Workspace;
use leftwm_core::process;
use leftwm_core::screen_create_handler;
use leftwm_core::window_handler;

#[test]
fn basic_move_to_tag_test() {
    let mut manager = Manager::default();
    manager.tags = vec!["A".to_string(), "B".to_string(), "C".to_string()];
    for n in 1..=3 {
        let window = Window::new(WindowHandle::MockHandle(n), None);
        window_handler::created(&mut manager, window);
    }
    let res = process(&mut manager, Command::MoveToTag, Some("2".to_string()));
    assert!(res);
    assert!(manager.windows[2].tags.contains(&"B".to_string()));
}

#[test]
fn basic_go_to_tag_test() {
    let mut manager = Manager::default();
    manager.tags = vec!["A".to_string(), "B".to_string(), "C".to_string()];
    screen_create_handler::process(&mut manager, Screen::default());

    for n in 1..=3 {
        let window = Window::new(WindowHandle::MockHandle(n), None);
        window_handler::created(&mut manager, window);
        let workspace = Workspace::new(BBox {
            width: 600,
            height: 800,
            x: 0,
            y: 0,
        });
        manager.workspaces.push(workspace.clone());
    }

    let valid_input = vec!["1", "2"];

    for input in valid_input.iter() {
        let res = process(&mut manager, Command::GotoTag, Some(input.to_string()));
        assert!(res);
    }

    let invalid_input = vec!["A", "B", "C", "0", "1000", ""];

    for input in invalid_input.iter() {
        let res = process(&mut manager, Command::GotoTag, Some(input.to_string()));
        assert!(!res);
    }
}

#[test]
fn basic_focus_next_tag_test() {
    let mut manager = Manager::default();
    screen_create_handler::process(&mut manager, Screen::default());
    manager.tags = vec!["A".to_string(), "B".to_string(), "C".to_string()];
    for n in 1..=3 {
        let window = Window::new(WindowHandle::MockHandle(n), None);
        window_handler::created(&mut manager, window);
    }
    leftwm_core::focus_handler::focus_tag(&mut manager, "A");

    let tag_count = manager.tags.len();

    // validate we can do full wrap around of tags
    for n in 1..=tag_count {
        let res = process(&mut manager, Command::FocusNextTag, None);
        assert_eq!(
            manager.focused_tag(),
            Some(manager.tags[n % tag_count].to_string())
        );
        assert!(res);
    }
}

#[test]
fn basic_focus_previous_tag_test() {
    let mut manager = Manager::default();
    screen_create_handler::process(&mut manager, Screen::default());
    manager.tags = vec!["A".to_string(), "B".to_string(), "C".to_string()];
    for n in 1..=3 {
        let window = Window::new(WindowHandle::MockHandle(n), None);
        window_handler::created(&mut manager, window);
    }
    leftwm_core::focus_handler::focus_tag(&mut manager, "A");

    let tag_count = manager.tags.len();

    // validate we can do full wrap around of tags
    for n in 1..=tag_count {
        let res = process(&mut manager, Command::FocusPreviousTag, None);
        assert_eq!(
            manager.focused_tag(),
            Some(manager.tags[tag_count - n].to_string())
        );
        assert!(res);
    }
}

#[test]
fn execute_basic_execute_test() {
    let mut manager = Manager::default();
    screen_create_handler::process(&mut manager, Screen::default());
    manager.tags = vec!["A".to_string(), "B".to_string(), "C".to_string()];
    for n in 1..=3 {
        let window = Window::new(WindowHandle::MockHandle(n), None);
        window_handler::created(&mut manager, window);
    }

    let res = process(&mut manager, Command::Execute, Some("ls".to_string()));
    assert!(!res);
}

#[test]
fn execute_basic_close_window_test() {
    let mut manager = Manager::default();
    screen_create_handler::process(&mut manager, Screen::default());
    manager.tags = vec!["A".to_string(), "B".to_string(), "C".to_string()];
    for n in 1..=3 {
        let window = Window::new(WindowHandle::MockHandle(n), None);
        window_handler::created(&mut manager, window);
    }
    assert_eq!(manager.windows.len(), 3);
    let res = process(&mut manager, Command::CloseWindow, Some("1".to_string()));
    assert!(!res);
    // closing is asynchronous: the window list is untouched and exactly one
    // kill action is queued for the display layer
    assert_eq!(manager.windows.len(), 3);
    assert!(matches!(
        manager.actions[0],
        DisplayAction::KillWindow(WindowHandle::MockHandle(3))
    ));
}
