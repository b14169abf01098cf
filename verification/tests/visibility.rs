use blackbox_desktop::{handle_tray_click, WindowVisibility};

#[test]
fn test_toggle_from_visible() {
    let visibility = WindowVisibility::Visible;
    assert_eq!(visibility.toggle(), WindowVisibility::Hidden);
}

#[test]
fn test_toggle_from_hidden() {
    let visibility = WindowVisibility::Hidden;
    assert_eq!(visibility.toggle(), WindowVisibility::Visible);
}

#[test]
fn test_is_visible_when_visible() {
    assert!(WindowVisibility::Visible.is_visible());
}

#[test]
fn test_is_visible_when_hidden() {
    assert!(!WindowVisibility::Hidden.is_visible());
}

#[test]
fn test_from_bool_true() {
    assert_eq!(WindowVisibility::from(true), WindowVisibility::Visible);
}

#[test]
fn test_from_bool_false() {
    assert_eq!(WindowVisibility::from(false), WindowVisibility::Hidden);
}

#[test]
fn test_double_toggle_returns_original() {
    let original = WindowVisibility::Visible;
    assert_eq!(original.toggle().toggle(), original);

    let original = WindowVisibility::Hidden;
    assert_eq!(original.toggle().toggle(), original);
}

#[test]
fn test_toggle_never_returns_its_input() {
    for state in [WindowVisibility::Visible, WindowVisibility::Hidden] {
        assert_ne!(state.toggle(), state);
        assert_eq!(state.toggle().is_visible(), !state.is_visible());
    }
}

#[test]
fn test_from_bool_round_trips_through_is_visible() {
    for flag in [true, false] {
        assert_eq!(WindowVisibility::from(flag).is_visible(), flag);
    }
}

#[test]
fn test_bool_converts_with_into() {
    let shown: WindowVisibility = true.into();
    let hidden: WindowVisibility = false.into();
    assert_eq!(shown, WindowVisibility::Visible);
    assert_eq!(hidden, WindowVisibility::Hidden);
}

#[test]
fn test_handle_tray_click_when_visible() {
    let result = handle_tray_click(WindowVisibility::Visible);
    assert_eq!(result, WindowVisibility::Hidden);
}

#[test]
fn test_handle_tray_click_when_hidden() {
    let result = handle_tray_click(WindowVisibility::Hidden);
    assert_eq!(result, WindowVisibility::Visible);
}

#[test]
fn test_handle_tray_click_twice_restores_the_state() {
    for state in [WindowVisibility::Visible, WindowVisibility::Hidden] {
        assert_eq!(handle_tray_click(handle_tray_click(state)), state);
    }
}
