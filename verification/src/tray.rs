//! Tray/Lifecycle Coordinator: maps tray menu action identifiers onto the
//! supervisor's operations and window visibility. Each action yields a short
//! list of effects in execution order; the unverified GUI shell performs
//! them.

use vstd::prelude::*;

use crate::command::backend_port;
use crate::command::backend_port_str;
use crate::command::browser_url;
use crate::command::spec_browser_url;
use crate::strutil::str_eq;

verus! {

/// A tray menu action, parsed from the menu item identifier the GUI hands
/// over.
#[derive(Clone, Copy, PartialEq, Eq, Structural, Debug)]
pub enum TrayAction {
    Quit,
    Show,
    Hide,
    UseBrowser,
    Other,
}

/// The action a menu item identifier stands for; identifiers not in the menu
/// contract mean no action.
pub open spec fn spec_parse_tray_action(id: Seq<char>) -> TrayAction {
    if id == "quit"@ {
        TrayAction::Quit
    } else if id == "show"@ {
        TrayAction::Show
    } else if id == "hide"@ {
        TrayAction::Hide
    } else if id == "useBrowser"@ {
        TrayAction::UseBrowser
    } else {
        TrayAction::Other
    }
}

/// Parses a tray menu item identifier.
pub fn parse_tray_action(id: &str) -> (a: TrayAction)
    ensures
        a == spec_parse_tray_action(id@),
{
    if str_eq(id, "quit") {
        TrayAction::Quit
    } else if str_eq(id, "show") {
        TrayAction::Show
    } else if str_eq(id, "hide") {
        TrayAction::Hide
    } else if str_eq(id, "useBrowser") {
        TrayAction::UseBrowser
    } else {
        TrayAction::Other
    }
}

/// One effect the GUI shell must perform, in list order.
#[derive(Clone, PartialEq, Eq, Debug)]
pub enum Effect {
    /// Invoke the Termination Controller for this process identifier.
    KillProcess { pid: String },
    /// Exit the application process immediately.
    ExitApp,
    /// Make the main window visible.
    ShowWindow,
    /// Hide the main window.
    HideWindow,
    /// Open the default system browser at this URL.
    OpenUrl { url: String },
}

/// The effects each tray action requires, in execution order: `quit` kills
/// the tracked backend exactly once and then exits; `show`/`hide` only toggle
/// window visibility; `useBrowser` hides the window and opens the backend's
/// local URL exactly once; anything else does nothing.
pub open spec fn spec_tray_effects(pid: Seq<char>, a: TrayAction, r: Seq<Effect>) -> bool {
    match a {
        TrayAction::Quit => r.len() == 2 && (r[0] matches Effect::KillProcess { pid: p } && p@
            == pid) && r[1] is ExitApp,
        TrayAction::Show => r.len() == 1 && r[0] is ShowWindow,
        TrayAction::Hide => r.len() == 1 && r[0] is HideWindow,
        TrayAction::UseBrowser => r.len() == 2 && r[0] is HideWindow && (r[1] matches Effect::OpenUrl {
            url,
        } && url@ == spec_browser_url(backend_port())),
        TrayAction::Other => r.len() == 0,
    }
}

/// The effects of a tray action, given the tracked backend's identifier.
pub fn handle_tray_action(tracked_pid: &str, action: TrayAction) -> (r: Vec<Effect>)
    ensures
        spec_tray_effects(tracked_pid@, action, r@),
{
    let mut r: Vec<Effect> = Vec::new();
    match action {
        TrayAction::Quit => {
            r.push(Effect::KillProcess { pid: tracked_pid.to_owned() });
            r.push(Effect::ExitApp);
        },
        TrayAction::Show => {
            r.push(Effect::ShowWindow);
        },
        TrayAction::Hide => {
            r.push(Effect::HideWindow);
        },
        TrayAction::UseBrowser => {
            r.push(Effect::HideWindow);
            r.push(Effect::OpenUrl { url: browser_url(backend_port_str()) });
        },
        TrayAction::Other => {},
    }
    r
}

/// On `quit`, the kill of the tracked identifier strictly precedes the exit,
/// and no other effect occurs: exactly one kill is issued before the process
/// exits.
pub proof fn lemma_quit_kills_once_before_exit(pid: Seq<char>, r: Seq<Effect>)
    requires
        spec_tray_effects(pid, TrayAction::Quit, r),
    ensures
        r.len() == 2,
        r[0] matches Effect::KillProcess { pid: p } && p@ == pid,
        r[1] is ExitApp,
        forall|i: int| 0 < i < r.len() ==> !(#[trigger] r[i] is KillProcess),
{
}

} // verus!
