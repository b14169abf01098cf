use blackbox_desktop::{WindowAction, WindowVisibility};

#[test]
fn test_determine_window_exists_and_visible() {
    let action = WindowAction::determine(true, Some(true));
    assert_eq!(action, WindowAction::Toggle(WindowVisibility::Hidden));
}

#[test]
fn test_determine_window_exists_and_hidden() {
    let action = WindowAction::determine(true, Some(false));
    assert_eq!(action, WindowAction::Toggle(WindowVisibility::Visible));
}

#[test]
fn test_determine_window_exists_visibility_unknown() {
    let action = WindowAction::determine(true, None);
    // Defaults to hidden, so toggle should make it visible
    assert_eq!(action, WindowAction::Toggle(WindowVisibility::Visible));
}

#[test]
fn test_determine_window_does_not_exist() {
    let action = WindowAction::determine(false, None);
    assert_eq!(action, WindowAction::Create);
}

#[test]
fn test_determine_window_does_not_exist_ignores_visibility() {
    // Even if visibility is provided (shouldn't happen), it should still create
    let action = WindowAction::determine(false, Some(true));
    assert_eq!(action, WindowAction::Create);
}

#[test]
fn test_determine_existence_dominates_every_hint() {
    for hint in [None, Some(true), Some(false)] {
        assert_eq!(WindowAction::determine(false, hint), WindowAction::Create);
        assert_ne!(WindowAction::determine(true, hint), WindowAction::Create);
    }
}

#[test]
fn test_determine_is_deterministic() {
    for exists in [true, false] {
        for hint in [None, Some(true), Some(false)] {
            assert_eq!(
                WindowAction::determine(exists, hint),
                WindowAction::determine(exists, hint)
            );
        }
    }
}

#[test]
fn test_determine_toggles_the_reported_visibility() {
    for visible in [true, false] {
        let expected = WindowVisibility::from(visible).toggle();
        assert_eq!(
            WindowAction::determine(true, Some(visible)),
            WindowAction::Toggle(expected)
        );
    }
}
