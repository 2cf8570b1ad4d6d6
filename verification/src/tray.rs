//! The tray icon: its menu and what each interaction with it asks for.

use vstd::prelude::*;

verus! {

/// What an interaction with the tray asks for.
#[derive(Clone, Copy, Debug, PartialEq, Eq, Structural)]
pub enum TrayAction {
    /// Bring the main window to the front.
    ShowMainWindow,
    /// End the process at once, with exit code 0.
    Quit,
    /// Nothing.
    Ignore,
}

/// What the host reports of the tray icon itself.
#[derive(Clone, Copy, Debug, PartialEq, Eq, Structural)]
pub enum TrayIconEvent {
    /// The icon was clicked.
    Click,
    /// The pointer entered, moved over or left the icon, or anything else.
    Other,
}

/// The action of the menu item with the identifier `id`.
pub open spec fn menu_action(id: Seq<char>) -> TrayAction {
    if id == "show"@ {
        TrayAction::ShowMainWindow
    } else if id == "quit"@ {
        TrayAction::Quit
    } else {
        TrayAction::Ignore
    }
}

/// Compares two string slices with `==`. Trusted: the answer is whether
/// they hold the same characters.
#[verifier::external_body]
fn same_text(a: &str, b: &str) -> (same: bool)
    ensures
        same == (a@ == b@),
{
    a == b
}

/// The identifier of the menu item that shows the main window.
pub fn show_item_id() -> (id: &'static str)
    ensures
        id@ == "show"@,
{
    "show"
}

/// The identifier of the menu item that ends the process.
pub fn quit_item_id() -> (id: &'static str)
    ensures
        id@ == "quit"@,
{
    "quit"
}

/// What the choice of a menu item asks for: `show` brings the main window
/// to the front, `quit` ends the process, any other identifier is ignored.
pub fn tray_menu_action(id: &str) -> (action: TrayAction)
    ensures
        action == menu_action(id@),
{
    if same_text(id, show_item_id()) {
        TrayAction::ShowMainWindow
    } else if same_text(id, quit_item_id()) {
        TrayAction::Quit
    } else {
        TrayAction::Ignore
    }
}

/// What an event on the icon asks for: a bare click is the same as the
/// menu item `show`, anything else is ignored.
pub fn tray_icon_action(event: TrayIconEvent) -> (action: TrayAction)
    ensures
        action == (if event == TrayIconEvent::Click {
            TrayAction::ShowMainWindow
        } else {
            TrayAction::Ignore
        }),
        event == TrayIconEvent::Click ==> action == menu_action("show"@),
{
    match event {
        TrayIconEvent::Click => TrayAction::ShowMainWindow,
        TrayIconEvent::Other => TrayAction::Ignore,
    }
}

} // verus!
