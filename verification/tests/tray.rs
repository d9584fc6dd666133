use clipsync::scaffold::{starter_action, starter_tray_menu, starter_window_config};
use clipsync::tray::{
    main_window_config, menu_action, on_exit_requested, open_window_or_focus, tray_action,
    tray_menu, ExitDecision, MenuAction, MenuEntry, MouseButton, MouseButtonState, TrayAction,
    TrayEvent, WindowStep,
};

fn item_of(entry: &MenuEntry) -> Option<(&str, &str, bool)> {
    match entry {
        MenuEntry::Item { id, label, enabled } => Some((id.as_str(), label.as_str(), *enabled)),
        MenuEntry::Separator => None,
    }
}

#[test]
fn tray_menu_has_open_separator_restart_quit() {
    let menu = tray_menu();
    assert_eq!(menu.len(), 4);
    assert_eq!(item_of(&menu[0]), Some(("open", "Open", true)));
    assert!(matches!(menu[1], MenuEntry::Separator));
    assert_eq!(item_of(&menu[2]), Some(("restart", "Restart", true)));
    assert_eq!(item_of(&menu[3]), Some(("quit", "Quit", true)));
}

#[test]
fn menu_items_map_to_their_actions() {
    assert_eq!(menu_action(&"open".to_string()), MenuAction::OpenOrFocus);
    assert_eq!(menu_action(&"restart".to_string()), MenuAction::Restart);
    assert_eq!(menu_action(&"quit".to_string()), MenuAction::Exit(0));
}

#[test]
fn unknown_menu_item_has_no_handler() {
    assert_eq!(menu_action(&"settings".to_string()), MenuAction::NoHandler);
    assert_eq!(menu_action(&"".to_string()), MenuAction::NoHandler);
    assert_eq!(menu_action(&"Open".to_string()), MenuAction::NoHandler);
    assert_eq!(menu_action(&"quit ".to_string()), MenuAction::NoHandler);
}

#[test]
fn every_tray_menu_item_is_handled() {
    let menu = tray_menu();
    let mut ids = Vec::new();
    for entry in &menu {
        if let MenuEntry::Item { id, .. } = entry {
            assert_ne!(menu_action(id), MenuAction::NoHandler);
            assert!(!ids.contains(id));
            ids.push(id.clone());
        }
    }
    assert_eq!(ids.len(), 3);
}

#[test]
fn left_click_opens_the_window_whether_down_or_up() {
    let down = TrayEvent::Click { button: MouseButton::Left, button_state: MouseButtonState::Down };
    let up = TrayEvent::Click { button: MouseButton::Left, button_state: MouseButtonState::Up };
    assert_eq!(tray_action(&down), TrayAction::OpenOrFocus);
    assert_eq!(tray_action(&up), TrayAction::OpenOrFocus);
}

#[test]
fn other_tray_events_are_ignored() {
    let right = TrayEvent::Click { button: MouseButton::Right, button_state: MouseButtonState::Up };
    let middle = TrayEvent::Click { button: MouseButton::Middle, button_state: MouseButtonState::Down };
    assert_eq!(tray_action(&right), TrayAction::Ignore);
    assert_eq!(tray_action(&middle), TrayAction::Ignore);
    assert_eq!(tray_action(&TrayEvent::DoubleClick { button: MouseButton::Left }), TrayAction::Ignore);
    assert_eq!(tray_action(&TrayEvent::Hover), TrayAction::Ignore);
}

#[test]
fn exit_without_code_is_prevented() {
    assert_eq!(on_exit_requested(None), ExitDecision::PreventExit);
}

#[test]
fn exit_with_code_goes_through() {
    assert_eq!(on_exit_requested(Some(0)), ExitDecision::Allow);
    assert_eq!(on_exit_requested(Some(1)), ExitDecision::Allow);
    assert_eq!(on_exit_requested(Some(-1)), ExitDecision::Allow);
}

#[test]
fn main_window_is_built_hidden_with_title() {
    let c = main_window_config();
    assert_eq!(c.label, "main");
    assert_eq!(c.url, "index.html");
    assert_eq!(c.title.as_deref(), Some("ClipSync"));
    assert!(!c.visible);
}

#[test]
fn missing_window_is_built_then_shown_and_focused() {
    assert_eq!(
        open_window_or_focus(false),
        vec![WindowStep::Build, WindowStep::Show, WindowStep::Focus]
    );
}

#[test]
fn existing_window_is_shown_and_focused() {
    assert_eq!(open_window_or_focus(true), vec![WindowStep::Show, WindowStep::Focus]);
}

#[test]
fn starter_menu_has_quit_alone() {
    let menu = starter_tray_menu();
    assert_eq!(menu.len(), 1);
    assert_eq!(item_of(&menu[0]), Some(("quit", "Quit", true)));
}

#[test]
fn starter_handles_quit_only() {
    assert_eq!(starter_action(&"quit".to_string()), MenuAction::Exit(0));
    assert_eq!(starter_action(&"open".to_string()), MenuAction::NoHandler);
    assert_eq!(starter_action(&"restart".to_string()), MenuAction::NoHandler);
}

#[test]
fn starter_window_uses_defaults_and_is_visible() {
    let c = starter_window_config();
    assert_eq!(c.label, "main");
    assert_eq!(c.url, "index.html");
    assert!(c.title.is_none());
    assert!(c.visible);
}
