//! From an event of the host to the command that answers it.
//!
//! The host owns the windows. When an event arrives, the caller asks the
//! host what it knows about the windows concerned, hands that to one of the
//! `on_*` functions here together with the event, and carries out the single
//! command that comes back. A command that the host fails to carry out is
//! dropped; nothing is retried.

use crate::config;
use crate::dimensions::WindowDimensions;
use crate::menu::MenuAction;
use crate::visibility::WindowVisibility;
use crate::window_action::WindowAction;
use vstd::prelude::*;
use vstd::string::StringExecFns;

verus! {

/// What the host reports about one window at the moment of an event.
#[derive(Debug, Clone, Copy, PartialEq, Eq)]
pub struct WindowState {
    /// Whether the window has been created.
    pub exists: bool,
    /// Whether the window is on screen; `None` where the host could not tell
    /// or there is no window.
    pub visible: Option<bool>,
}

/// What the host needs to know to create a window.
#[derive(Debug, Clone, Copy, PartialEq, Eq)]
pub struct WindowConfig<'a> {
    /// Identifier by which the host finds the window again.
    pub label: &'a str,
    pub title: &'a str,
    /// Route that the window loads.
    pub url: &'a str,
    pub dimensions: WindowDimensions,
    /// Whether the window is on screen as soon as it is created.
    pub visible: bool,
}

/// The one thing that the host is asked to do in answer to an event.
#[derive(Debug, Clone, Copy, PartialEq, Eq)]
pub enum HostCommand<'a> {
    /// Create the window; it stays off screen until it is shown.
    CreateWindow(WindowConfig<'a>),
    /// Show the window and give it the focus, after sending it to the route
    /// `navigate_to` if there is one.
    ShowWindow { label: &'a str, navigate_to: Option<&'a str> },
    /// Take the window off screen without destroying it.
    HideWindow { label: &'a str },
    /// Open the link in the default browser.
    OpenUrl { url: &'a str },
    /// Send the named event to the user interface.
    Emit { event: &'a str },
    /// End the process at once, bypassing any interception of a close.
    Exit { code: i32 },
    /// Do nothing.
    Nothing,
}

/// The answer to the request to close a window.
#[derive(Debug, Clone, Copy, PartialEq, Eq)]
pub struct CloseResponse<'a> {
    /// Whether the host must keep the window instead of destroying it.
    pub prevent_close: bool,
    /// What to do with the window instead.
    pub command: HostCommand<'a>,
}

/// How the main window is created.
pub open spec fn main_window_config() -> WindowConfig<'static> {
    WindowConfig {
        label: config::WINDOW_LABEL,
        title: config::WINDOW_TITLE,
        url: config::ROUTE_HOME,
        dimensions: WindowDimensions::spec_default_dimensions(),
        visible: false,
    }
}

/// How the settings window is created when it is to load the route `url`.
pub open spec fn settings_window_config(url: &'static str) -> WindowConfig<'static> {
    WindowConfig {
        label: config::SETTINGS_LABEL,
        title: config::SETTINGS_TITLE,
        url,
        dimensions: WindowDimensions {
            width: config::SETTINGS_WIDTH,
            height: config::SETTINGS_HEIGHT,
        },
        visible: false,
    }
}

/// Showing a window that exists, or creating it where it does not. With
/// `navigate`, a window that exists is first sent to the route of `window`.
pub open spec fn spec_show_or_create_window<'a>(
    window_exists: bool,
    window: WindowConfig<'a>,
    navigate: bool,
) -> HostCommand<'a> {
    if window_exists {
        HostCommand::ShowWindow {
            label: window.label,
            navigate_to: if navigate {
                Some(window.url)
            } else {
                None
            },
        }
    } else {
        HostCommand::CreateWindow(window)
    }
}

/// The command that carries out a window action on the window that `window`
/// describes.
pub open spec fn spec_apply_window_action<'a>(
    action: WindowAction,
    window: WindowConfig<'a>,
) -> HostCommand<'a> {
    match action {
        WindowAction::Create => HostCommand::CreateWindow(window),
        WindowAction::Toggle(WindowVisibility::Visible) => HostCommand::ShowWindow {
            label: window.label,
            navigate_to: None,
        },
        WindowAction::Toggle(WindowVisibility::Hidden) => HostCommand::HideWindow {
            label: window.label,
        },
    }
}

/// The answer to a click on the tray icon: the main window is created if it
/// does not exist, hidden if it is on screen, and shown otherwise.
pub open spec fn spec_on_tray_click(main: WindowState) -> HostCommand<'static> {
    spec_apply_window_action(
        WindowAction::spec_determine(main.exists, main.visible),
        main_window_config(),
    )
}

/// The answer to a menu action. A link is opened before anything else is
/// considered.
pub open spec fn spec_dispatch_menu_action(
    action: MenuAction,
    main: WindowState,
    settings: WindowState,
) -> HostCommand<'static> {
    match action.spec_url() {
        Some(url) => HostCommand::OpenUrl { url },
        None => match action {
            MenuAction::Open => spec_on_tray_click(main),
            MenuAction::Settings => spec_show_or_create_window(
                settings.exists,
                settings_window_config(config::ROUTE_SETTINGS),
                false,
            ),
            MenuAction::About => spec_show_or_create_window(
                settings.exists,
                settings_window_config(config::ROUTE_ABOUT),
                true,
            ),
            MenuAction::CheckUpdates => HostCommand::Emit { event: config::EVENT_CHECK_UPDATES },
            MenuAction::Quit => HostCommand::Exit { code: config::EXIT_CODE },
            _ => HostCommand::Nothing,
        },
    }
}

/// Whether a hotkey event is a press of the configured combination, given
/// what the host says of the key that fired.
pub open spec fn hotkey_fires(
    pressed: bool,
    matches_meta_space: bool,
    matches_control_space: bool,
) -> bool {
    pressed && (matches_meta_space || matches_control_space)
}

/// The answer to a hotkey event: that to a click on the tray icon where the
/// configured combination was pressed, nothing otherwise.
pub open spec fn spec_on_global_shortcut(
    pressed: bool,
    matches_meta_space: bool,
    matches_control_space: bool,
    main: WindowState,
) -> HostCommand<'static> {
    if hotkey_fires(pressed, matches_meta_space, matches_control_space) {
        spec_on_tray_click(main)
    } else {
        HostCommand::Nothing
    }
}

/// The script that sends a window of the host to the route `url`.
pub open spec fn spec_navigation_script(url: Seq<char>) -> Seq<char> {
    "window.location.replace('"@ + url + "')"@
}

/// Shows the window if it exists and creates it otherwise.
///
/// When `navigate` is true and the window already exists, the command sends
/// it to `url` before showing it, which leads to a given tab of a window
/// that is already open. A window that is created loads `url` in any case,
/// has the given title and size, and starts off screen.
pub fn show_or_create_window<'a>(
    window_exists: bool,
    label: &'a str,
    title: &'a str,
    url: &'a str,
    width: i32,
    height: i32,
    navigate: bool,
) -> (command: HostCommand<'a>)
    ensures
        command == spec_show_or_create_window(
            window_exists,
            (WindowConfig {
                label,
                title,
                url,
                dimensions: WindowDimensions { width, height },
                visible: false,
            }),
            navigate,
        ),
{
    if window_exists {
        let navigate_to = if navigate {
            Some(url)
        } else {
            None
        };
        HostCommand::ShowWindow { label, navigate_to }
    } else {
        HostCommand::CreateWindow(
            WindowConfig {
                label,
                title,
                url,
                dimensions: WindowDimensions::new(width, height),
                visible: false,
            },
        )
    }
}

/// Decides what a click on the tray icon does to the main window.
pub fn on_tray_click(main: WindowState) -> (command: HostCommand<'static>)
    ensures
        command == spec_on_tray_click(main),
        !main.exists ==> command == HostCommand::CreateWindow(main_window_config()),
        main.exists && main.visible == Some(true) ==> command == (HostCommand::HideWindow {
            label: config::WINDOW_LABEL,
        }),
        main.exists && main.visible != Some(true) ==> command == (HostCommand::ShowWindow {
            label: config::WINDOW_LABEL,
            navigate_to: None,
        }),
{
    match WindowAction::determine(main.exists, main.visible) {
        WindowAction::Create => HostCommand::CreateWindow(
            WindowConfig {
                label: config::WINDOW_LABEL,
                title: config::WINDOW_TITLE,
                url: config::ROUTE_HOME,
                dimensions: WindowDimensions::default_dimensions(),
                visible: false,
            },
        ),
        WindowAction::Toggle(WindowVisibility::Visible) => HostCommand::ShowWindow {
            label: config::WINDOW_LABEL,
            navigate_to: None,
        },
        WindowAction::Toggle(WindowVisibility::Hidden) => HostCommand::HideWindow {
            label: config::WINDOW_LABEL,
        },
    }
}

/// Decides what a menu action does, given the state of the two windows.
///
/// An action with a link opens the link and touches no window. `Open`
/// answers as a click on the tray icon does. `Settings` and `About` show
/// the settings window or create it; `About` leads to its own tab. A check
/// for updates is handed on to the user interface, `Quit` ends the process,
/// and `Unknown` is ignored.
pub fn dispatch_menu_action(action: MenuAction, main: WindowState, settings: WindowState) -> (command:
    HostCommand<'static>)
    ensures
        command == spec_dispatch_menu_action(action, main, settings),
        command is OpenUrl <==> action.is_link(),
        command is Exit <==> action.spec_should_exit(),
        command matches HostCommand::CreateWindow(window) ==> !window.visible
            && window.dimensions.spec_is_valid(),
{
    if let Some(url) = action.get_url() {
        return HostCommand::OpenUrl { url };
    }
    match action {
        MenuAction::Open => on_tray_click(main),
        MenuAction::Settings => show_or_create_window(
            settings.exists,
            config::SETTINGS_LABEL,
            config::SETTINGS_TITLE,
            config::ROUTE_SETTINGS,
            config::SETTINGS_WIDTH,
            config::SETTINGS_HEIGHT,
            false,
        ),
        MenuAction::About => show_or_create_window(
            settings.exists,
            config::SETTINGS_LABEL,
            config::SETTINGS_TITLE,
            config::ROUTE_ABOUT,
            config::SETTINGS_WIDTH,
            config::SETTINGS_HEIGHT,
            true,
        ),
        MenuAction::CheckUpdates => HostCommand::Emit { event: config::EVENT_CHECK_UPDATES },
        MenuAction::Quit => HostCommand::Exit { code: config::EXIT_CODE },
        _ => HostCommand::Nothing,
    }
}

/// Decides what picking the menu item with the identifier `id` does, given
/// the state of the two windows: the identifier is classified and the action
/// dispatched.
pub fn on_menu_event(id: &str, main: WindowState, settings: WindowState) -> (command: HostCommand<
    'static,
>)
    ensures
        command == spec_dispatch_menu_action(MenuAction::spec_from_id(id@), main, settings),
        !MenuAction::is_menu_id(id@) ==> command == HostCommand::Nothing,
{
    dispatch_menu_action(MenuAction::from_id(id), main, settings)
}

/// Decides what an event of the global hotkey does to the main window.
///
/// The host says whether the key went down (`pressed`) and whether the key
/// that fired matches the Meta+Space and the Control+Space combination. A
/// press of either answers as a click on the tray icon does; a release, or
/// another key, does nothing.
pub fn on_global_shortcut(
    pressed: bool,
    matches_meta_space: bool,
    matches_control_space: bool,
    main: WindowState,
) -> (command: HostCommand<'static>)
    ensures
        command == spec_on_global_shortcut(
            pressed,
            matches_meta_space,
            matches_control_space,
            main,
        ),
{
    if pressed && (matches_meta_space || matches_control_space) {
        on_tray_click(main)
    } else {
        HostCommand::Nothing
    }
}

/// Answers the request to close the window `label`: the close is prevented
/// and the window hidden instead, so that the process keeps running in the
/// background.
pub fn on_close_requested<'a>(label: &'a str) -> (response: CloseResponse<'a>)
    ensures
        response.prevent_close,
        response.command == (HostCommand::HideWindow { label }),
{
    CloseResponse { prevent_close: true, command: HostCommand::HideWindow { label } }
}

/// Builds the script that sends a window of the host to the route `url`.
pub fn navigation_script(url: &str) -> (script: String)
    ensures
        script@ == spec_navigation_script(url@),
{
    String::from_str("window.location.replace('").concat(url).concat("')")
}

/// A link action opens its link whatever the state of the windows.
pub proof fn lemma_links_take_precedence(
    action: MenuAction,
    main: WindowState,
    settings: WindowState,
)
    ensures
        action.spec_url() matches Some(url) ==> spec_dispatch_menu_action(action, main, settings)
            == (HostCommand::OpenUrl { url }),
        spec_dispatch_menu_action(action, main, settings) is OpenUrl <==> action.is_link(),
{
}

/// The process is asked to end on `Quit` and on nothing else.
pub proof fn lemma_exit_iff_quit(action: MenuAction, main: WindowState, settings: WindowState)
    ensures
        spec_dispatch_menu_action(action, main, settings) is Exit <==> action
            == MenuAction::Quit,
{
}

/// Whatever the event, a window that is created starts off screen and has a
/// valid size.
pub proof fn lemma_created_windows_start_hidden(
    action: MenuAction,
    main: WindowState,
    settings: WindowState,
)
    ensures
        spec_dispatch_menu_action(action, main, settings) matches HostCommand::CreateWindow(
            window,
        ) ==> !window.visible && window.dimensions.spec_is_valid(),
        spec_on_tray_click(main) matches HostCommand::CreateWindow(window) ==> !window.visible
            && window.dimensions.spec_is_valid(),
{
}

} // verus!
