use blackbox_desktop::config;

#[test]
fn test_window_config() {
    assert_eq!(config::WINDOW_TITLE, "Blackbox");
    assert_eq!(config::WINDOW_LABEL, "main");
    assert_eq!(config::SETTINGS_LABEL, "settings");
    assert_eq!(f64::from(config::WINDOW_WIDTH), 400.0);
    assert_eq!(f64::from(config::WINDOW_HEIGHT), 300.0);
    assert_eq!(f64::from(config::SETTINGS_WIDTH), 480.0);
    assert_eq!(f64::from(config::SETTINGS_HEIGHT), 400.0);
}

#[test]
fn test_menu_ids() {
    assert_eq!(config::MENU_OPEN_ID, "open");
    assert_eq!(config::MENU_FEEDBACK_ID, "feedback");
    assert_eq!(config::MENU_MANUAL_ID, "manual");
    assert_eq!(config::MENU_TROUBLESHOOTING_ID, "troubleshooting");
    assert_eq!(config::MENU_SLACK_ID, "slack");
    assert_eq!(config::MENU_TWITTER_ID, "twitter");
    assert_eq!(config::MENU_YOUTUBE_ID, "youtube");
    assert_eq!(config::MENU_ABOUT_ID, "about");
    assert_eq!(config::MENU_UPDATES_ID, "updates");
    assert_eq!(config::MENU_SETTINGS_ID, "settings");
    assert_eq!(config::MENU_QUIT_ID, "quit");
}

#[test]
fn test_external_urls() {
    assert!(config::URL_FEEDBACK.starts_with("https://"));
    assert!(config::URL_MANUAL.starts_with("https://"));
    assert!(config::URL_TROUBLESHOOTING.starts_with("https://"));
    assert!(config::URL_SLACK.starts_with("https://"));
    assert!(config::URL_TWITTER.starts_with("https://"));
    assert!(config::URL_YOUTUBE.starts_with("https://"));
}

#[test]
fn test_routes_events_and_defaults() {
    assert_eq!(config::SETTINGS_TITLE, "Settings");
    assert_eq!(config::ROUTE_HOME, "/");
    assert_eq!(config::ROUTE_SETTINGS, "/settings");
    assert_eq!(config::ROUTE_ABOUT, "/settings?tab=about");
    assert_eq!(config::EVENT_CHECK_UPDATES, "check-updates");
    assert_eq!(config::EXIT_CODE, 0);
    assert_eq!(config::DEFAULT_HOTKEY, "CommandOrControl+Space");
    assert_eq!(config::DEFAULT_APPEARANCE, "system");
    assert_eq!(config::URL_SCHEME, "https://");
}
