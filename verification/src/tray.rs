//! The tray control surface's decision logic: which command a menu item
//! stands for. Building the tray and dispatching the command is the
//! caller's business.

use vstd::prelude::*;

use crate::text::str_eq;

verus! {

/// A command chosen from the tray menu.
#[derive(Clone, Copy, PartialEq, Eq, Structural, Debug)]
pub enum TrayCommand {
    OpenBrowser,
    Quit,
}

/// The command a menu item id stands for; unknown ids mean nothing.
pub open spec fn spec_menu_command(id: Seq<char>) -> Option<TrayCommand> {
    if id == "open_browser"@ {
        Some(TrayCommand::OpenBrowser)
    } else if id == "quit"@ {
        Some(TrayCommand::Quit)
    } else {
        None
    }
}

/// Decode a menu event's item id into the command to dispatch.
pub fn handle_menu_event(id: &str) -> (r: Option<TrayCommand>)
    ensures
        r == spec_menu_command(id@),
{
    if str_eq(id, "open_browser") {
        Some(TrayCommand::OpenBrowser)
    } else if str_eq(id, "quit") {
        Some(TrayCommand::Quit)
    } else {
        None
    }
}

} // verus!
