//! The global shortcuts and what they do to the main window.

use vstd::prelude::*;
use vstd::string::*;

verus! {

/// What a global shortcut asks for.
#[derive(Debug, Clone, Copy, PartialEq, Eq, Structural)]
pub enum Shortcut {
    /// Show the main window, or hide it where it is visible.
    ToggleWindow,
    /// Show the main window and open a new chat.
    NewChat,
}

impl Shortcut {
    /// The key combination that triggers the shortcut.
    pub open spec fn keys_text(self) -> Seq<char> {
        match self {
            Shortcut::ToggleWindow => "CmdOrCtrl+Shift+K"@,
            Shortcut::NewChat => "CmdOrCtrl+Shift+N"@,
        }
    }

    /// The key combination that triggers the shortcut.
    pub fn keys(&self) -> (keys: &'static str)
        ensures
            keys@ == self.keys_text(),
    {
        match self {
            Shortcut::ToggleWindow => "CmdOrCtrl+Shift+K",
            Shortcut::NewChat => "CmdOrCtrl+Shift+N",
        }
    }
}

/// What toggling does to the main window.
#[derive(Debug, PartialEq)]
pub enum WindowAction {
    /// Hide the window.
    Hide,
    /// Show the window, restore it from the task bar, and focus it.
    Reveal,
    /// Leave the window and log the line as an error.
    Report { line: String },
}

/// Decides what toggling does, from whether the window is visible: a
/// visible window is hidden, a hidden one revealed, and where the
/// visibility could not be read the failure is reported.
pub fn toggle_action(visible: Result<bool, String>) -> (action: WindowAction)
    ensures
        match visible {
            Ok(true) => action == WindowAction::Hide,
            Ok(false) => action == WindowAction::Reveal,
            Err(reason) => action matches WindowAction::Report { line } && line@
                == "Failed to check window visibility: "@ + reason@,
        },
{
    match visible {
        Ok(true) => WindowAction::Hide,
        Ok(false) => WindowAction::Reveal,
        Err(reason) => {
            let mut line = "Failed to check window visibility: ".to_owned();
            line.append(reason.as_str());
            WindowAction::Report { line }
        },
    }
}

} // verus!
