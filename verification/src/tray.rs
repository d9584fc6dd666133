//! The desktop shell's decisions: the tray menu and what its items do, what
//! a click on the tray icon does, the main window and how it is brought to
//! the front, and whether a request to exit is let through.

use vstd::prelude::*;
use vstd::string::*;

use crate::text::same_text;

verus! {

/// One entry of a menu.
#[derive(Debug)]
pub enum MenuEntry {
    /// A clickable item: the id that its events carry, its label, and whether it is enabled.
    Item { id: String, label: String, enabled: bool },
    /// A separating line.
    Separator,
}

/// A menu entry, its texts taken by their characters.
pub enum MenuEntryView {
    Item { id: Seq<char>, label: Seq<char>, enabled: bool },
    Separator,
}

impl View for MenuEntry {
    type V = MenuEntryView;

    open spec fn view(&self) -> MenuEntryView {
        match self {
            MenuEntry::Item { id, label, enabled } => MenuEntryView::Item {
                id: id@,
                label: label@,
                enabled: *enabled,
            },
            MenuEntry::Separator => MenuEntryView::Separator,
        }
    }
}

/// The entries of a menu, taken by their views.
pub open spec fn menu_view(menu: Seq<MenuEntry>) -> Seq<MenuEntryView> {
    menu.map_values(|e: MenuEntry| e@)
}

/// What the shell does for a menu item.
#[derive(Debug, PartialEq, Eq, Structural)]
pub enum MenuAction {
    /// Show the main window and give it the focus, building it first where it is missing.
    OpenOrFocus,
    /// Restart the application.
    Restart,
    /// Exit with the given code.
    Exit(i32),
    /// Nothing is bound to the item: report it.
    NoHandler,
}

/// The tray menu of the application: Open, a separator, Restart and Quit.
pub open spec fn app_menu() -> Seq<MenuEntryView> {
    seq![
        MenuEntryView::Item { id: "open"@, label: "Open"@, enabled: true },
        MenuEntryView::Separator,
        MenuEntryView::Item { id: "restart"@, label: "Restart"@, enabled: true },
        MenuEntryView::Item { id: "quit"@, label: "Quit"@, enabled: true },
    ]
}

/// What the application does for the menu item with id `id`.
pub open spec fn app_menu_action(id: Seq<char>) -> MenuAction {
    if id == "open"@ {
        MenuAction::OpenOrFocus
    } else if id == "restart"@ {
        MenuAction::Restart
    } else if id == "quit"@ {
        MenuAction::Exit(0)
    } else {
        MenuAction::NoHandler
    }
}

fn menu_item(id: &str, label: &str) -> (e: MenuEntry)
    ensures
        e@ == (MenuEntryView::Item { id: id@, label: label@, enabled: true }),
{
    MenuEntry::Item { id: id.to_owned(), label: label.to_owned(), enabled: true }
}

/// Builds the tray menu of the application.
pub fn tray_menu() -> (menu: Vec<MenuEntry>)
    ensures
        menu_view(menu@) == app_menu(),
{
    let mut menu = Vec::new();
    menu.push(menu_item("open", "Open"));
    menu.push(MenuEntry::Separator);
    menu.push(menu_item("restart", "Restart"));
    menu.push(menu_item("quit", "Quit"));
    assert(menu_view(menu@) =~= app_menu());
    menu
}

/// What the application does for the menu item with id `id`.
pub fn menu_action(id: &String) -> (a: MenuAction)
    ensures
        a == app_menu_action(id@),
{
    if same_text(id, "open") {
        MenuAction::OpenOrFocus
    } else if same_text(id, "restart") {
        MenuAction::Restart
    } else if same_text(id, "quit") {
        MenuAction::Exit(0)
    } else {
        MenuAction::NoHandler
    }
}

/// Every item of the application's tray menu has an action bound to it, and
/// no two items share an id.
pub proof fn lemma_app_menu_items_handled()
    ensures
        forall|i: int|
            0 <= i < app_menu().len() ==> match #[trigger] app_menu()[i] {
                MenuEntryView::Item { id, .. } => app_menu_action(id) != MenuAction::NoHandler,
                MenuEntryView::Separator => true,
            },
        forall|i: int, j: int|
            0 <= i < j < app_menu().len() ==> match (#[trigger] app_menu()[i], #[trigger] app_menu()[j]) {
                (MenuEntryView::Item { id: a, .. }, MenuEntryView::Item { id: b, .. }) => a != b,
                _ => true,
            },
{
    reveal_strlit("open");
    reveal_strlit("restart");
    reveal_strlit("quit");
    assert(app_menu()[0] == MenuEntryView::Item { id: "open"@, label: "Open"@, enabled: true });
    assert(app_menu()[1] == MenuEntryView::Separator);
    assert(app_menu()[2] == MenuEntryView::Item { id: "restart"@, label: "Restart"@, enabled: true });
    assert(app_menu()[3] == MenuEntryView::Item { id: "quit"@, label: "Quit"@, enabled: true });
    assert("open"@ != "restart"@) by {
        assert("open"@.len() != "restart"@.len());
    }
    assert("open"@ != "quit"@) by {
        assert("open"@[0] != "quit"@[0]);
    }
    assert("restart"@ != "quit"@) by {
        assert("restart"@.len() != "quit"@.len());
    }
}

/// A mouse button.
#[derive(Debug, PartialEq, Eq, Structural)]
pub enum MouseButton {
    Left,
    Right,
    Middle,
}

/// Whether a button went down or up.
#[derive(Debug, PartialEq, Eq, Structural)]
pub enum MouseButtonState {
    Up,
    Down,
}

/// An event of the tray icon.
#[derive(Debug, PartialEq, Eq, Structural)]
pub enum TrayEvent {
    /// A click with `button`, as it goes down or up.
    Click { button: MouseButton, button_state: MouseButtonState },
    /// A double click with `button`.
    DoubleClick { button: MouseButton },
    /// The pointer entered, moved over or left the icon.
    Hover,
}

/// What the shell does for a tray event.
#[derive(Debug, PartialEq, Eq, Structural)]
pub enum TrayAction {
    /// Show the main window and give it the focus, building it first where it is missing.
    OpenOrFocus,
    /// Nothing.
    Ignore,
}

/// A click with the left button, down or up, brings the main window up;
/// any other event is ignored.
pub open spec fn tray_event_action(e: TrayEvent) -> TrayAction {
    match e {
        TrayEvent::Click { button: MouseButton::Left, .. } => TrayAction::OpenOrFocus,
        _ => TrayAction::Ignore,
    }
}

/// Decides what the shell does for a tray event.
pub fn tray_action(e: &TrayEvent) -> (a: TrayAction)
    ensures
        a == tray_event_action(*e),
{
    match e {
        TrayEvent::Click { button: MouseButton::Left, .. } => TrayAction::OpenOrFocus,
        _ => TrayAction::Ignore,
    }
}

/// What the shell answers a request to exit.
#[derive(Debug, PartialEq, Eq, Structural)]
pub enum ExitDecision {
    /// Keep running, in the tray.
    PreventExit,
    /// Let the application end.
    Allow,
}

/// A request without an exit code (the last window was closed) is refused, so
/// that the application stays in the tray; one with a code (an explicit exit)
/// goes through.
pub open spec fn exit_decision(code: Option<i32>) -> ExitDecision {
    match code {
        None => ExitDecision::PreventExit,
        Some(_) => ExitDecision::Allow,
    }
}

/// Decides whether a request to exit goes through.
pub fn on_exit_requested(code: Option<i32>) -> (d: ExitDecision)
    ensures
        d == exit_decision(code),
{
    if code.is_none() {
        ExitDecision::PreventExit
    } else {
        ExitDecision::Allow
    }
}

/// How a webview window is built.
#[derive(Debug)]
pub struct WindowConfig {
    /// The label that finds the window again.
    pub label: String,
    /// The page of the application that it shows.
    pub url: String,
    /// The title; the toolkit's own where `None`.
    pub title: Option<String>,
    /// Whether it is shown as soon as it is built.
    pub visible: bool,
}

/// The label of the main window.
pub open spec fn main_label() -> Seq<char> {
    "main"@
}

/// The page that the main window shows.
pub open spec fn main_url() -> Seq<char> {
    "index.html"@
}

/// The main window of the application: labelled `main`, showing
/// `index.html`, titled `ClipSync`, and built hidden, to be shown once its
/// saved state is restored.
pub fn main_window_config() -> (c: WindowConfig)
    ensures
        c.label@ == main_label(),
        c.url@ == main_url(),
        c.title matches Some(t) && t@ == "ClipSync"@,
        !c.visible,
{
    WindowConfig {
        label: "main".to_owned(),
        url: "index.html".to_owned(),
        title: Some("ClipSync".to_owned()),
        visible: false,
    }
}

/// One step of bringing the main window to the front.
#[derive(Debug, PartialEq, Eq, Structural)]
pub enum WindowStep {
    /// Build the main window.
    Build,
    /// Show it.
    Show,
    /// Give it the focus.
    Focus,
}

/// Bringing the main window to the front: build it where it does not exist
/// yet, then show it, then focus it.
pub open spec fn open_steps(main_exists: bool) -> Seq<WindowStep> {
    if main_exists {
        seq![WindowStep::Show, WindowStep::Focus]
    } else {
        seq![WindowStep::Build, WindowStep::Show, WindowStep::Focus]
    }
}

/// Plans how the main window is brought to the front; the shell carries the
/// steps out in order and stops at the first that fails.
pub fn open_window_or_focus(main_exists: bool) -> (steps: Vec<WindowStep>)
    ensures
        steps@ == open_steps(main_exists),
{
    let mut steps = Vec::new();
    if !main_exists {
        steps.push(WindowStep::Build);
    }
    steps.push(WindowStep::Show);
    steps.push(WindowStep::Focus);
    assert(steps@ =~= open_steps(main_exists));
    steps
}

/// Only a left click brings the main window up: an event opens or focuses it
/// if and only if it is a click with the left button, and every click with
/// the right or the middle button, going down or up, is ignored.
pub proof fn lemma_only_left_click_opens(e: TrayEvent)
    ensures
        (tray_event_action(e) == TrayAction::OpenOrFocus) <==> (e matches TrayEvent::Click {
            button: MouseButton::Left,
            ..
        }),
        forall|s: MouseButtonState|
            tray_event_action(TrayEvent::Click { button: MouseButton::Right, button_state: s })
                == TrayAction::Ignore && tray_event_action(
                TrayEvent::Click { button: MouseButton::Middle, button_state: s },
            ) == TrayAction::Ignore,
{
}

/// Only a request without an exit code is held back: a request with any code
/// at all, such as the one a restart makes, goes through.
pub proof fn lemma_exit_prevented_only_without_code()
    ensures
        exit_decision(None) == ExitDecision::PreventExit,
        forall|c: i32| #[trigger] exit_decision(Some(c)) == ExitDecision::Allow,
{
}

} // verus!
