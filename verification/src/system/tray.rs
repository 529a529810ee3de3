//! What a click on the system tray asks for.

use vstd::prelude::*;
use vstd::string::*;

verus! {

/// A click on the tray icon or on an item of its menu.
#[derive(Debug)]
pub enum TrayClick {
    /// A left click on the icon.
    Left,
    /// A double click on the icon.
    Double,
    /// A click on the menu item with this identifier.
    MenuItem { id: String },
    /// Anything else.
    Other,
}

/// What the shell does about a click.
#[derive(Debug, Clone, Copy, PartialEq, Eq, Structural)]
pub enum TrayAction {
    ShowMainWindow,
    NewChat,
    RestartBackend,
    OpenPreferences,
    ShowAbout,
    Quit,
    Nothing,
}

/// The action behind a menu item. Identifiers are matched exactly; an
/// unknown one asks for nothing.
pub open spec fn menu_action_of(id: Seq<char>) -> TrayAction {
    if id == "open"@ {
        TrayAction::ShowMainWindow
    } else if id == "new_chat"@ {
        TrayAction::NewChat
    } else if id == "restart"@ {
        TrayAction::RestartBackend
    } else if id == "preferences"@ {
        TrayAction::OpenPreferences
    } else if id == "about"@ {
        TrayAction::ShowAbout
    } else if id == "quit"@ {
        TrayAction::Quit
    } else {
        TrayAction::Nothing
    }
}

/// The action behind a click: icon clicks show the main window, a menu
/// item does what its identifier says.
pub open spec fn tray_action_of(click: TrayClick) -> TrayAction {
    match click {
        TrayClick::Left => TrayAction::ShowMainWindow,
        TrayClick::Double => TrayAction::ShowMainWindow,
        TrayClick::MenuItem { id } => menu_action_of(id@),
        TrayClick::Other => TrayAction::Nothing,
    }
}

/// Whether `text` reads exactly `word`.
fn reads(text: &String, word: &str) -> (same: bool)
    ensures
        same == (text@ == word@),
{
    let word = word.to_owned();
    *text == word
}

/// The action behind a menu item.
pub fn menu_action(id: &str) -> (action: TrayAction)
    ensures
        action == menu_action_of(id@),
{
    let id = id.to_owned();
    if reads(&id, "open") {
        TrayAction::ShowMainWindow
    } else if reads(&id, "new_chat") {
        TrayAction::NewChat
    } else if reads(&id, "restart") {
        TrayAction::RestartBackend
    } else if reads(&id, "preferences") {
        TrayAction::OpenPreferences
    } else if reads(&id, "about") {
        TrayAction::ShowAbout
    } else if reads(&id, "quit") {
        TrayAction::Quit
    } else {
        TrayAction::Nothing
    }
}

/// The action behind a click.
pub fn tray_action(click: &TrayClick) -> (action: TrayAction)
    ensures
        action == tray_action_of(*click),
{
    match click {
        TrayClick::Left => TrayAction::ShowMainWindow,
        TrayClick::Double => TrayAction::ShowMainWindow,
        TrayClick::MenuItem { id } => menu_action(id.as_str()),
        TrayClick::Other => TrayAction::Nothing,
    }
}

/// The title of the tray's status item.
pub open spec fn status_title_text(running: bool) -> Seq<char> {
    if running {
        "✓ 后端运行中"@
    } else {
        "✗ 后端已停止"@
    }
}

/// The title of the tray's status item: a check mark while the backend
/// runs, a cross while it does not.
pub fn status_title(running: bool) -> (title: &'static str)
    ensures
        title@ == status_title_text(running),
{
    if running {
        "✓ 后端运行中"
    } else {
        "✗ 后端已停止"
    }
}

/// The text of the "about" dialog for the given version.
pub open spec fn about_text(version: Seq<char>) -> Seq<char> {
    "OKCVM Desktop\n\n版本: "@ + version
        + "\n\nOK Computer in a Box: Your Self-Hosted Agent Workflow Layer"@
}

/// The text of the "about" dialog for the given version.
pub fn about_message(version: &str) -> (text: String)
    ensures
        text@ == about_text(version@),
{
    let mut text = "OKCVM Desktop\n\n版本: ".to_owned();
    text.append(version);
    text.append("\n\nOK Computer in a Box: Your Self-Hosted Agent Workflow Layer");
    text
}

} // verus!
