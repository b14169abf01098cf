//! Decision logic of a menu-bar application shell.
//!
//! The shell owns a tray icon, a dropdown menu and one or two windows. The
//! host toolkit delivers raw events (a menu item was picked, the tray icon was
//! clicked, the global hotkey fired, a window is about to close) and this
//! crate decides what the host has to do about each of them. Every function
//! here is pure: the state of the windows comes in as plain values and the
//! decision goes out as a plain value.

pub mod config;
pub mod dimensions;
pub mod dispatch;
pub mod menu;
pub mod settings;
pub mod text;
pub mod visibility;
pub mod window_action;

pub use dimensions::WindowDimensions;
pub use dispatch::{
    dispatch_menu_action, navigation_script, on_close_requested, on_global_shortcut,
    on_menu_event, on_tray_click, show_or_create_window, CloseResponse, HostCommand,
    WindowConfig, WindowState,
};
pub use menu::MenuAction;
pub use settings::AppSettings;
pub use visibility::{handle_tray_click, WindowVisibility};
pub use window_action::WindowAction;
