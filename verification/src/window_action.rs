//! The decision between showing, hiding and creating a window.

use crate::visibility::WindowVisibility;
use vstd::prelude::*;

verus! {

/// What to do with the target window of a click or a hotkey.
///
/// The value is derived, never stored: it is computed afresh from what the
/// host reports each time an event fires.
#[derive(Debug, Clone, Copy, PartialEq, Eq, Structural)]
pub enum WindowAction {
    /// Bring the existing window to the given visibility.
    Toggle(WindowVisibility),
    /// Create the window, which does not exist yet.
    Create,
}

impl WindowAction {
    /// The visibility that a report of the host is taken for. A window whose
    /// visibility the host could not tell counts as hidden.
    pub open spec fn assumed_visibility(current_visibility: Option<bool>) -> WindowVisibility {
        match current_visibility {
            Some(visible) => WindowVisibility::spec_from_bool(visible),
            None => WindowVisibility::Hidden,
        }
    }

    /// The action for a window that exists or not and that the host reports
    /// as visible, as hidden, or as neither.
    pub open spec fn spec_determine(
        window_exists: bool,
        current_visibility: Option<bool>,
    ) -> WindowAction {
        if window_exists {
            WindowAction::Toggle(Self::assumed_visibility(current_visibility).spec_toggle())
        } else {
            WindowAction::Create
        }
    }

    /// Determines the appropriate action based on window existence and
    /// visibility.
    ///
    /// A window that does not exist is created, whatever the visibility hint
    /// says. A window that exists is brought to the opposite of its current
    /// visibility, where an unknown visibility counts as hidden, so that such
    /// a window is shown.
    #[verifier::when_used_as_spec(spec_determine)]
    pub fn determine(window_exists: bool, current_visibility: Option<bool>) -> (action: Self)
        ensures
            action == Self::spec_determine(window_exists, current_visibility),
            !window_exists ==> action == WindowAction::Create,
            window_exists && current_visibility == Some(true) ==> action == WindowAction::Toggle(
                WindowVisibility::Hidden,
            ),
            window_exists && current_visibility != Some(true) ==> action == WindowAction::Toggle(
                WindowVisibility::Visible,
            ),
    {
        if window_exists {
            let visibility = match current_visibility {
                Some(visible) => WindowVisibility::from(visible),
                None => WindowVisibility::Hidden,
            };
            WindowAction::Toggle(visibility.toggle())
        } else {
            WindowAction::Create
        }
    }
}

/// Existence dominates the visibility hint: without a window the action is
/// `Create`, whatever the hint.
pub proof fn lemma_missing_window_is_created(current_visibility: Option<bool>)
    ensures
        WindowAction::determine(false, current_visibility) == WindowAction::Create,
{
}

/// An existing window is never created again. It is hidden if the host
/// reports it as visible and shown in every other case, the one of an
/// unknown visibility among them.
pub proof fn lemma_existing_window_is_toggled(current_visibility: Option<bool>)
    ensures
        WindowAction::determine(true, current_visibility) == WindowAction::Toggle(
            WindowAction::assumed_visibility(current_visibility).toggle(),
        ),
        WindowAction::determine(true, current_visibility) == WindowAction::Toggle(
            WindowVisibility::Hidden,
        ) <==> current_visibility == Some(true),
        WindowAction::determine(true, current_visibility) == WindowAction::Toggle(
            WindowVisibility::Visible,
        ) <==> current_visibility != Some(true),
{
}

/// On an existing window of known visibility the action agrees with the
/// click on the tray icon: the window is brought to the opposite of the
/// visibility it has.
pub proof fn lemma_known_visibility_is_toggled(current: WindowVisibility)
    ensures
        WindowAction::determine(true, Some(current.is_visible())) == WindowAction::Toggle(
            current.toggle(),
        ),
{
}

} // verus!
