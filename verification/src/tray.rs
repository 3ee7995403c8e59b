//! Commands from the system tray.

use vstd::prelude::*;

use crate::text::str_eq;

verus! {

/// A command from the system tray.
#[derive(Clone, Copy, Debug, PartialEq, Eq, Structural)]
pub enum Command {
    /// Show or hide the main window.
    Toggle,
    /// Open the settings window.
    Settings,
    /// Quit the application.
    Quit,
}

/// The command of a tray menu item, by its id.
pub open spec fn command_of_id(id: Seq<char>) -> Option<Command> {
    if id == "toggle"@ {
        Some(Command::Toggle)
    } else if id == "settings"@ {
        Some(Command::Settings)
    } else if id == "quit"@ {
        Some(Command::Quit)
    } else {
        None
    }
}

/// The command of a tray menu item; `None` for other items.
pub fn menu_command(id: &str) -> (r: Option<Command>)
    ensures
        r == command_of_id(id@),
{
    if str_eq(id, "toggle") {
        Some(Command::Toggle)
    } else if str_eq(id, "settings") {
        Some(Command::Settings)
    } else if str_eq(id, "quit") {
        Some(Command::Quit)
    } else {
        None
    }
}

} // verus!
