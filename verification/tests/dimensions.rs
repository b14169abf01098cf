use blackbox_desktop::config;
use blackbox_desktop::WindowDimensions;

#[test]
fn test_new_dimensions() {
    let dims = WindowDimensions::new(800, 600);
    assert_eq!(f64::from(dims.width), 800.0);
    assert_eq!(f64::from(dims.height), 600.0);
}

#[test]
fn test_default_dimensions() {
    let dims = WindowDimensions::default_dimensions();
    assert_eq!(dims.width, config::WINDOW_WIDTH);
    assert_eq!(dims.height, config::WINDOW_HEIGHT);
}

#[test]
fn test_default_trait() {
    let dims = WindowDimensions::default();
    assert_eq!(f64::from(dims.width), 400.0);
    assert_eq!(f64::from(dims.height), 300.0);
}

#[test]
fn test_is_valid_with_positive_dimensions() {
    let dims = WindowDimensions::new(100, 100);
    assert!(dims.is_valid());
}

#[test]
fn test_is_valid_with_zero_width() {
    let dims = WindowDimensions::new(0, 100);
    assert!(!dims.is_valid());
}

#[test]
fn test_is_valid_with_zero_height() {
    let dims = WindowDimensions::new(100, 0);
    assert!(!dims.is_valid());
}

#[test]
fn test_is_valid_with_negative_dimensions() {
    let dims = WindowDimensions::new(-100, -100);
    assert!(!dims.is_valid());
}

#[test]
fn test_is_valid_on_boundary_values() {
    let boundary = [0, -1, 1, i32::MIN, i32::MAX];
    for width in boundary {
        for height in boundary {
            let dims = WindowDimensions::new(width, height);
            assert_eq!(dims.is_valid(), width > 0 && height > 0);
        }
    }
}

#[test]
fn test_is_valid_needs_both_sides() {
    assert!(WindowDimensions::new(1, 1).is_valid());
    assert!(!WindowDimensions::new(1, -1).is_valid());
    assert!(!WindowDimensions::new(-1, 1).is_valid());
    assert!(!WindowDimensions::new(0, 0).is_valid());
}

#[test]
fn test_new_keeps_invalid_values() {
    let dims = WindowDimensions::new(-5, 0);
    assert_eq!(dims.width, -5);
    assert_eq!(dims.height, 0);
}

#[test]
fn test_default_dimensions_are_valid() {
    assert!(WindowDimensions::default_dimensions().is_valid());
    assert_eq!(WindowDimensions::default(), WindowDimensions::new(400, 300));
}
