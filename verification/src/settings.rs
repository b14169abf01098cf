//! Settings that the user interface and the shell exchange.

use crate::config;
use vstd::prelude::*;

verus! {

/// Application settings as the user interface sends and receives them.
#[derive(Debug)]
pub struct AppSettings {
    /// Start the application when the user logs in.
    pub launch_at_login: bool,
    /// Key combination of the global hotkey.
    pub hotkey: String,
    /// Show the icon in the menu bar.
    pub show_in_menu_bar: bool,
    /// One of "light", "dark" and "system".
    pub appearance: String,
}

/// The settings as plain values.
pub struct AppSettingsView {
    pub launch_at_login: bool,
    pub hotkey: Seq<char>,
    pub show_in_menu_bar: bool,
    pub appearance: Seq<char>,
}

impl View for AppSettings {
    type V = AppSettingsView;

    open spec fn view(&self) -> AppSettingsView {
        AppSettingsView {
            launch_at_login: self.launch_at_login,
            hotkey: self.hotkey@,
            show_in_menu_bar: self.show_in_menu_bar,
            appearance: self.appearance@,
        }
    }
}

impl AppSettings {
    /// The settings of a fresh installation: no launch at login, the default
    /// hotkey, the icon in the menu bar, the appearance of the system.
    pub open spec fn spec_default() -> AppSettingsView {
        AppSettingsView {
            launch_at_login: false,
            hotkey: config::DEFAULT_HOTKEY@,
            show_in_menu_bar: true,
            appearance: config::DEFAULT_APPEARANCE@,
        }
    }
}

impl Clone for AppSettings {
    /// A copy that holds the same settings.
    fn clone(&self) -> (copy: Self)
        ensures
            copy@ == self@,
    {
        Self {
            launch_at_login: self.launch_at_login,
            hotkey: self.hotkey.clone(),
            show_in_menu_bar: self.show_in_menu_bar,
            appearance: self.appearance.clone(),
        }
    }
}

impl Default for AppSettings {
    /// The settings of a fresh installation.
    fn default() -> (settings: Self)
        ensures
            settings@ == AppSettings::spec_default(),
    {
        Self {
            launch_at_login: false,
            hotkey: config::DEFAULT_HOTKEY.to_owned(),
            show_in_menu_bar: true,
            appearance: config::DEFAULT_APPEARANCE.to_owned(),
        }
    }
}

} // verus!
