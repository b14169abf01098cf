//! The two-state visibility flag of a window.

use vstd::prelude::*;
use vstd::std_specs::convert::FromSpecImpl;

verus! {

/// Whether a window is shown on screen.
///
/// The value is never stored: it is read from the host each time a decision
/// is due.
#[derive(Debug, Clone, Copy, PartialEq, Eq, Structural)]
pub enum WindowVisibility {
    Visible,
    Hidden,
}

impl WindowVisibility {
    /// The opposite state.
    pub open spec fn spec_toggle(self) -> WindowVisibility {
        match self {
            WindowVisibility::Visible => WindowVisibility::Hidden,
            WindowVisibility::Hidden => WindowVisibility::Visible,
        }
    }

    /// Whether the state is `Visible`.
    pub open spec fn spec_is_visible(self) -> bool {
        self == WindowVisibility::Visible
    }

    /// The state that a boolean stands for: `true` for `Visible`, `false`
    /// for `Hidden`.
    pub open spec fn spec_from_bool(visible: bool) -> WindowVisibility {
        if visible {
            WindowVisibility::Visible
        } else {
            WindowVisibility::Hidden
        }
    }

    /// Returns the opposite state.
    #[verifier::when_used_as_spec(spec_toggle)]
    pub fn toggle(self) -> (toggled: Self)
        ensures
            toggled == self.spec_toggle(),
            toggled != self,
    {
        match self {
            WindowVisibility::Visible => WindowVisibility::Hidden,
            WindowVisibility::Hidden => WindowVisibility::Visible,
        }
    }

    /// Returns true if the window should be visible.
    #[verifier::when_used_as_spec(spec_is_visible)]
    pub fn is_visible(self) -> (visible: bool)
        ensures
            visible == self.spec_is_visible(),
            visible <==> self == WindowVisibility::Visible,
    {
        match self {
            WindowVisibility::Visible => true,
            WindowVisibility::Hidden => false,
        }
    }
}

impl From<bool> for WindowVisibility {
    /// Maps `true` to `Visible` and `false` to `Hidden`.
    fn from(visible: bool) -> (state: Self)
        ensures
            state == WindowVisibility::spec_from_bool(visible),
    {
        if visible {
            WindowVisibility::Visible
        } else {
            WindowVisibility::Hidden
        }
    }
}

impl FromSpecImpl<bool> for WindowVisibility {
    open spec fn obeys_from_spec() -> bool {
        true
    }

    open spec fn from_spec(visible: bool) -> WindowVisibility {
        WindowVisibility::spec_from_bool(visible)
    }
}

/// Decides the visibility that a click on the tray icon asks for, given the
/// visibility that the window has now.
pub fn handle_tray_click(current_visibility: WindowVisibility) -> (next: WindowVisibility)
    ensures
        next == current_visibility.spec_toggle(),
        next != current_visibility,
{
    current_visibility.toggle()
}

/// Toggling is its own inverse: two toggles give back the state they started
/// from.
pub proof fn lemma_toggle_involution(v: WindowVisibility)
    ensures
        v.toggle().toggle() == v,
{
}

/// Toggling never leaves the state as it is.
pub proof fn lemma_toggle_changes(v: WindowVisibility)
    ensures
        v.toggle() != v,
        v.toggle().is_visible() == !v.is_visible(),
{
}

/// A state made from a boolean reports that boolean back as its visibility.
pub proof fn lemma_from_bool_is_visible(b: bool)
    ensures
        WindowVisibility::spec_from_bool(b).is_visible() == b,
{
}

} // verus!
