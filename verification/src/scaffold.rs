//! The starter shell: a tray menu with Quit alone, and a main window with the
//! toolkit's defaults.

use vstd::prelude::*;
use vstd::string::*;

use crate::text::same_text;
use crate::tray::{MenuEntry, MenuEntryView, MenuAction, WindowConfig, menu_view, main_label, main_url};

verus! {

/// The starter's tray menu: Quit alone.
pub open spec fn starter_menu() -> Seq<MenuEntryView> {
    seq![MenuEntryView::Item { id: "quit"@, label: "Quit"@, enabled: true }]
}

/// What the starter does for the menu item with id `id`.
pub open spec fn starter_menu_action(id: Seq<char>) -> MenuAction {
    if id == "quit"@ {
        MenuAction::Exit(0)
    } else {
        MenuAction::NoHandler
    }
}

/// Builds the starter's tray menu.
pub fn starter_tray_menu() -> (menu: Vec<MenuEntry>)
    ensures
        menu_view(menu@) == starter_menu(),
{
    let mut menu = Vec::new();
    menu.push(MenuEntry::Item { id: "quit".to_owned(), label: "Quit".to_owned(), enabled: true });
    assert(menu_view(menu@) =~= starter_menu());
    menu
}

/// What the starter does for the menu item with id `id`.
pub fn starter_action(id: &String) -> (a: MenuAction)
    ensures
        a == starter_menu_action(id@),
{
    if same_text(id, "quit") {
        MenuAction::Exit(0)
    } else {
        MenuAction::NoHandler
    }
}

/// Every item of the starter's tray menu has an action bound to it.
pub proof fn lemma_starter_menu_items_handled()
    ensures
        forall|i: int|
            0 <= i < starter_menu().len() ==> match #[trigger] starter_menu()[i] {
                MenuEntryView::Item { id, .. } => starter_menu_action(id) != MenuAction::NoHandler,
                MenuEntryView::Separator => true,
            },
{
    assert(starter_menu()[0] == MenuEntryView::Item { id: "quit"@, label: "Quit"@, enabled: true });
}

/// The starter's main window: labelled `main`, showing `index.html`, with the
/// toolkit's title, shown as soon as it is built.
pub fn starter_window_config() -> (c: WindowConfig)
    ensures
        c.label@ == main_label(),
        c.url@ == main_url(),
        c.title is None,
        c.visible,
{
    WindowConfig { label: "main".to_owned(), url: "index.html".to_owned(), title: None, visible: true }
}

} // verus!
