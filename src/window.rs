use vstd::prelude::*;

verus! {

/// Whether the main window is presented to the user.
#[derive(Clone, Copy, Debug, PartialEq, Eq, Structural)]
pub enum VisibilityState {
    Shown,
    Hidden,
}

/// What the window controller asks of the OS window, if one exists.
#[derive(Clone, Copy, Debug, PartialEq, Eq, Structural)]
pub enum WindowAction {
    /// Make the window invisible.
    Hide,
    /// Make the window visible and give it input focus.
    ShowAndFocus,
}

/// The state after one toggle: `Shown` and `Hidden` swap.
pub open spec fn toggled(s: VisibilityState) -> VisibilityState {
    match s {
        VisibilityState::Shown => VisibilityState::Hidden,
        VisibilityState::Hidden => VisibilityState::Shown,
    }
}

/// The state after `n` toggles starting from `s`.
pub open spec fn toggled_n(s: VisibilityState, n: nat) -> VisibilityState
    decreases n,
{
    if n == 0 {
        s
    } else {
        toggled(toggled_n(s, (n - 1) as nat))
    }
}

/// The state after `show`: `Shown`, whatever it was.
pub open spec fn after_show(s: VisibilityState) -> VisibilityState {
    VisibilityState::Shown
}

/// The state after `hide_window`: `Hidden`, whatever it was.
pub open spec fn after_hide(s: VisibilityState) -> VisibilityState {
    VisibilityState::Hidden
}

/// The action that brings the OS window in line with state `s`.
pub open spec fn action_for(s: VisibilityState) -> WindowAction {
    match s {
        VisibilityState::Shown => WindowAction::ShowAndFocus,
        VisibilityState::Hidden => WindowAction::Hide,
    }
}

impl VisibilityState {
    /// The state at process start.
    pub fn initial() -> (r: VisibilityState)
        ensures
            r == VisibilityState::Hidden,
    {
        VisibilityState::Hidden
    }

    /// The action that brings the OS window in line with this state, as when
    /// a window is created after the state changed.
    pub fn window_action(&self) -> (r: WindowAction)
        ensures
            r == action_for(*self),
    {
        match self {
            VisibilityState::Shown => WindowAction::ShowAndFocus,
            VisibilityState::Hidden => WindowAction::Hide,
        }
    }

    pub fn is_shown(&self) -> (r: bool)
        ensures
            r == (*self == VisibilityState::Shown),
    {
        match self {
            VisibilityState::Shown => true,
            VisibilityState::Hidden => false,
        }
    }
}

/// Flips the state and returns the window action that goes with the new
/// state: hide when it was shown, show and focus when it was hidden.
pub fn toggle(state: &mut VisibilityState) -> (r: WindowAction)
    ensures
        *final(state) == toggled(*old(state)),
        r == action_for(*final(state)),
{
    match *state {
        VisibilityState::Shown => {
            *state = VisibilityState::Hidden;
            WindowAction::Hide
        },
        VisibilityState::Hidden => {
            *state = VisibilityState::Shown;
            WindowAction::ShowAndFocus
        },
    }
}

/// Sets the state to `Shown`, whatever it was; the window is shown and
/// focused.
pub fn show(state: &mut VisibilityState) -> (r: WindowAction)
    ensures
        *final(state) == after_show(*old(state)),
        r == WindowAction::ShowAndFocus,
{
    *state = VisibilityState::Shown;
    WindowAction::ShowAndFocus
}

/// Sets the state to `Hidden`, whatever it was; the window is hidden.
pub fn hide_window(state: &mut VisibilityState) -> (r: WindowAction)
    ensures
        *final(state) == after_hide(*old(state)),
        r == WindowAction::Hide,
{
    *state = VisibilityState::Hidden;
    WindowAction::Hide
}

/// Toggling `n` times from `Hidden` leaves the window shown exactly when
/// `n` is odd.
pub proof fn lemma_toggle_parity(n: nat)
    ensures
        (toggled_n(VisibilityState::Hidden, n) == VisibilityState::Shown) <==> (n % 2 == 1),
    decreases n,
{
    if n > 0 {
        lemma_toggle_parity((n - 1) as nat);
    }
}

/// `show` followed by `hide_window` leaves the window hidden from any state, and
/// each of them applied twice is the same as applied once.
pub proof fn lemma_show_then_hide(s: VisibilityState)
    ensures
        after_hide(after_show(s)) == VisibilityState::Hidden,
        after_show(after_show(s)) == after_show(s),
        after_hide(after_hide(s)) == after_hide(s),
{
}

/// Two toggles in a row cancel out: the state after both is the state
/// before them.
pub proof fn lemma_toggles_linearize(s: VisibilityState)
    ensures
        toggled(toggled(s)) == s,
{
}

} // verus!
