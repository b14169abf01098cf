//! Fixed configuration of the shell: window identities and sizes, menu item
//! identifiers, external links and defaults.

use vstd::prelude::*;

verus! {

/// Title of the main window.
pub const WINDOW_TITLE: &'static str = "Blackbox";

/// Identifier of the main window.
pub const WINDOW_LABEL: &'static str = "main";

/// Identifier of the settings window.
pub const SETTINGS_LABEL: &'static str = "settings";

/// Title of the settings window.
pub const SETTINGS_TITLE: &'static str = "Settings";

/// Width of the main window, in logical pixels.
pub const WINDOW_WIDTH: i32 = 400;

/// Height of the main window, in logical pixels.
pub const WINDOW_HEIGHT: i32 = 300;

/// Width of the settings window, in logical pixels.
pub const SETTINGS_WIDTH: i32 = 480;

/// Height of the settings window, in logical pixels.
pub const SETTINGS_HEIGHT: i32 = 400;

/// Route that the main window loads.
pub const ROUTE_HOME: &'static str = "/";

/// Route that the settings window loads.
pub const ROUTE_SETTINGS: &'static str = "/settings";

/// Route of the "about" tab of the settings window.
pub const ROUTE_ABOUT: &'static str = "/settings?tab=about";

// Menu item identifiers.
pub const MENU_OPEN_ID: &'static str = "open";

pub const MENU_FEEDBACK_ID: &'static str = "feedback";

pub const MENU_MANUAL_ID: &'static str = "manual";

pub const MENU_TROUBLESHOOTING_ID: &'static str = "troubleshooting";

pub const MENU_SLACK_ID: &'static str = "slack";

pub const MENU_TWITTER_ID: &'static str = "twitter";

pub const MENU_YOUTUBE_ID: &'static str = "youtube";

pub const MENU_ABOUT_ID: &'static str = "about";

pub const MENU_UPDATES_ID: &'static str = "updates";

pub const MENU_SETTINGS_ID: &'static str = "settings";

pub const MENU_QUIT_ID: &'static str = "quit";

// External links.
pub const URL_FEEDBACK: &'static str = "https://github.com/blackbox-dev/blackbox/issues/new";

pub const URL_MANUAL: &'static str = "https://blackbox.dev/docs";

pub const URL_TROUBLESHOOTING: &'static str = "https://blackbox.dev/docs/troubleshooting";

pub const URL_SLACK: &'static str = "https://blackbox.dev/community";

pub const URL_TWITTER: &'static str = "https://twitter.com/blackboxdev";

pub const URL_YOUTUBE: &'static str = "https://youtube.com/@blackboxdev";

/// Scheme that every external link starts with.
pub const URL_SCHEME: &'static str = "https://";

/// Name of the event that asks the user interface to look for updates.
pub const EVENT_CHECK_UPDATES: &'static str = "check-updates";

/// Process exit code of a requested quit.
pub const EXIT_CODE: i32 = 0;

/// Global hotkey that toggles the main window.
pub const DEFAULT_HOTKEY: &'static str = "CommandOrControl+Space";

/// Appearance that follows the operating system.
pub const DEFAULT_APPEARANCE: &'static str = "system";

} // verus!
