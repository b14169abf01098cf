use blackbox_desktop::text::same_text;

#[test]
fn test_same_text_on_equal_strings() {
    assert!(same_text("", ""));
    assert!(same_text("quit", "quit"));
    assert!(same_text("caf\u{00e9}", "caf\u{00e9}"));
    let owned = String::from("settings");
    assert!(same_text(&owned, "settings"));
}

#[test]
fn test_same_text_on_different_lengths() {
    assert!(!same_text("", "a"));
    assert!(!same_text("a", ""));
    assert!(!same_text("quit", "qui"));
    assert!(!same_text("quit", "quits"));
}

#[test]
fn test_same_text_on_equal_lengths() {
    assert!(!same_text("quit", "quiT"));
    assert!(!same_text("Quit", "quit"));
    assert!(!same_text("slack", "about"));
    assert!(!same_text("abc", "abd"));
}

#[test]
fn test_same_text_agrees_with_string_equality() {
    let words = ["", "a", "A", "open", "opem", "\u{00e9}", "e\u{0301}", "\u{1f600}", "quit"];
    for a in words {
        for b in words {
            assert_eq!(same_text(a, b), a == b);
        }
    }
}
