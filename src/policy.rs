use vstd::prelude::*;
use crate::window::{VisibilityState, WindowAction, toggle, show, hide_window, toggled, action_for};

verus! {

/// Whether the application keeps running in the tray or is quitting.
#[derive(Clone, Copy, Debug, PartialEq, Eq, Structural)]
pub enum AppPhase {
    Running,
    Quitting,
}

/// The two entries of the tray menu.
#[derive(Clone, Copy, Debug, PartialEq, Eq, Structural)]
pub enum TrayMenuCommand {
    Show,
    Quit,
}

/// What becomes of a window close request.
#[derive(Clone, Copy, Debug, PartialEq, Eq, Structural)]
pub enum CloseDecision {
    /// Cancel the native close and hide the window instead.
    PreventAndHide,
    /// Let the close go through.
    Allow,
}

/// What the tray asks of the application.
#[derive(Clone, Copy, Debug, PartialEq, Eq, Structural)]
pub enum TrayAction {
    /// Bring the OS window in line with this action.
    Window(WindowAction),
    /// Terminate the process.
    Exit,
    /// Nothing to do.
    Nothing,
}

/// The label of the application's main window.
pub open spec fn main_label() -> Seq<char> {
    "main"@
}

/// The close decision for a request on the window `is_main` in `phase`:
/// only the main window is intercepted, and only while running.
pub open spec fn close_decision(phase: AppPhase, is_main: bool) -> CloseDecision {
    if is_main && phase == AppPhase::Running {
        CloseDecision::PreventAndHide
    } else {
        CloseDecision::Allow
    }
}

/// The phase after a menu command: `Quit` leads to `Quitting`.
pub open spec fn phase_after(cmd: TrayMenuCommand, phase: AppPhase) -> AppPhase {
    match cmd {
        TrayMenuCommand::Quit => AppPhase::Quitting,
        TrayMenuCommand::Show => phase,
    }
}

/// Whether two strings are equal.
fn same_text(a: &str, b: &str) -> (r: bool)
    ensures
        r == (a@ == b@),
{
    let x = a.to_owned();
    let y = b.to_owned();
    x == y
}

/// The menu command of a menu item id, if it is one of ours.
pub fn menu_command_from_id(id: &str) -> (r: Option<TrayMenuCommand>)
    ensures
        id@ == "show"@ ==> r == Some(TrayMenuCommand::Show),
        id@ == "quit"@ ==> r == Some(TrayMenuCommand::Quit),
        id@ != "show"@ && id@ != "quit"@ ==> r is None,
{
    proof {
        reveal_strlit("show");
        reveal_strlit("quit");
        assert("show"@[0] != "quit"@[0]);
    }
    if same_text(id, "show") {
        Some(TrayMenuCommand::Show)
    } else if same_text(id, "quit") {
        Some(TrayMenuCommand::Quit)
    } else {
        None
    }
}

/// Handles a close request on the window labelled `label`: while running,
/// the main window is hidden instead of closed; otherwise the close goes
/// through and the state is left alone.
pub fn on_close_requested(phase: AppPhase, label: &str, state: &mut VisibilityState) -> (r: CloseDecision)
    ensures
        r == close_decision(phase, label@ == main_label()),
        r == CloseDecision::PreventAndHide ==> *final(state) == VisibilityState::Hidden,
        r == CloseDecision::Allow ==> *final(state) == *old(state),
{
    if phase == AppPhase::Running && same_text(label, "main") {
        hide_window(state);
        CloseDecision::PreventAndHide
    } else {
        CloseDecision::Allow
    }
}

/// Handles a tray menu selection: `Show` shows the window, `Quit` moves to
/// `Quitting` and asks for the process to end.
pub fn on_menu_command(cmd: TrayMenuCommand, phase: &mut AppPhase, state: &mut VisibilityState) -> (r: TrayAction)
    ensures
        *final(phase) == phase_after(cmd, *old(phase)),
        cmd == TrayMenuCommand::Show ==> *final(state) == VisibilityState::Shown && r == TrayAction::Window(
            WindowAction::ShowAndFocus,
        ),
        cmd == TrayMenuCommand::Quit ==> *final(state) == *old(state) && r == TrayAction::Exit,
{
    match cmd {
        TrayMenuCommand::Show => TrayAction::Window(show(state)),
        TrayMenuCommand::Quit => {
            *phase = AppPhase::Quitting;
            TrayAction::Exit
        },
    }
}

/// Handles a click on the tray icon: the release of the left button
/// toggles the window; any other click leaves everything as it is.
pub fn on_tray_click(left_button_released: bool, state: &mut VisibilityState) -> (r: TrayAction)
    ensures
        left_button_released ==> *final(state) == toggled(*old(state)) && r == TrayAction::Window(
            action_for(*final(state)),
        ),
        !left_button_released ==> *final(state) == *old(state) && r == TrayAction::Nothing,
{
    if left_button_released {
        TrayAction::Window(toggle(state))
    } else {
        TrayAction::Nothing
    }
}

/// Handles a second launch of the application: the window is shown.
pub fn on_second_instance(state: &mut VisibilityState) -> (r: WindowAction)
    ensures
        *final(state) == VisibilityState::Shown,
        r == WindowAction::ShowAndFocus,
{
    show(state)
}

/// A close request on the main window while running never ends the process
/// and leaves the window hidden; once `Quit` has been chosen, from any phase,
/// close requests go through.
pub proof fn lemma_close_intercept(phase: AppPhase)
    ensures
        close_decision(AppPhase::Running, true) == CloseDecision::PreventAndHide,
        close_decision(phase_after(TrayMenuCommand::Quit, phase), true) == CloseDecision::Allow,
        phase_after(TrayMenuCommand::Show, phase) == phase,
{
}

} // verus!
