//! Classification of menu item identifiers into actions.

use crate::config;
use crate::text::same_text;
use vstd::prelude::*;

verus! {

/// What picking a menu item means.
///
/// The set is closed. An identifier that belongs to no menu item is not an
/// error: it classifies as `Unknown`, on which nothing is done.
#[derive(Debug, Clone, Copy, PartialEq, Eq, Structural)]
pub enum MenuAction {
    Open,
    Feedback,
    Manual,
    Troubleshooting,
    Slack,
    Twitter,
    YouTube,
    About,
    CheckUpdates,
    Settings,
    Quit,
    Unknown,
}

impl MenuAction {
    /// The identifier table, read from action to identifier: the identifier
    /// of the menu item that triggers this action. `Unknown` has none.
    pub open spec fn spec_id(self) -> Option<Seq<char>> {
        match self {
            MenuAction::Open => Some(config::MENU_OPEN_ID@),
            MenuAction::Feedback => Some(config::MENU_FEEDBACK_ID@),
            MenuAction::Manual => Some(config::MENU_MANUAL_ID@),
            MenuAction::Troubleshooting => Some(config::MENU_TROUBLESHOOTING_ID@),
            MenuAction::Slack => Some(config::MENU_SLACK_ID@),
            MenuAction::Twitter => Some(config::MENU_TWITTER_ID@),
            MenuAction::YouTube => Some(config::MENU_YOUTUBE_ID@),
            MenuAction::About => Some(config::MENU_ABOUT_ID@),
            MenuAction::CheckUpdates => Some(config::MENU_UPDATES_ID@),
            MenuAction::Settings => Some(config::MENU_SETTINGS_ID@),
            MenuAction::Quit => Some(config::MENU_QUIT_ID@),
            MenuAction::Unknown => None,
        }
    }

    /// Whether `id` is the identifier of some menu item.
    pub open spec fn is_menu_id(id: Seq<char>) -> bool {
        exists|action: MenuAction| #[trigger] action.spec_id() == Some(id)
    }

    /// The identifier table, read from identifier to action: the action
    /// whose menu item carries `id`, and `Unknown` where no menu item does.
    /// The match is exact and case-sensitive. No two menu items share an
    /// identifier, so there is at most one such action.
    pub open spec fn spec_from_id(id: Seq<char>) -> MenuAction {
        if Self::is_menu_id(id) {
            choose|action: MenuAction| #[trigger] action.spec_id() == Some(id)
        } else {
            MenuAction::Unknown
        }
    }

    /// Whether the action opens an external link.
    pub open spec fn is_link(self) -> bool {
        ||| self == MenuAction::Feedback
        ||| self == MenuAction::Manual
        ||| self == MenuAction::Troubleshooting
        ||| self == MenuAction::Slack
        ||| self == MenuAction::Twitter
        ||| self == MenuAction::YouTube
    }

    /// The external link of the action, if it has one.
    pub open spec fn spec_url(self) -> Option<&'static str> {
        match self {
            MenuAction::Feedback => Some(config::URL_FEEDBACK),
            MenuAction::Manual => Some(config::URL_MANUAL),
            MenuAction::Troubleshooting => Some(config::URL_TROUBLESHOOTING),
            MenuAction::Slack => Some(config::URL_SLACK),
            MenuAction::Twitter => Some(config::URL_TWITTER),
            MenuAction::YouTube => Some(config::URL_YOUTUBE),
            _ => None,
        }
    }

    /// Whether the action ends the application.
    pub open spec fn spec_should_exit(&self) -> bool {
        *self == MenuAction::Quit
    }

    /// Classifies the identifier of a menu item.
    ///
    /// The function is total. An identifier of the table gives the action of
    /// its entry and no other; every other string gives `Unknown`.
    pub fn from_id(id: &str) -> (action: Self)
        ensures
            action == Self::spec_from_id(id@),
            action != MenuAction::Unknown ==> action.spec_id() == Some(id@),
            action == MenuAction::Unknown <==> !Self::is_menu_id(id@),
    {
        proof {
            lemma_id_inverts_from_id(MenuAction::Open);
            lemma_id_inverts_from_id(MenuAction::Feedback);
            lemma_id_inverts_from_id(MenuAction::Manual);
            lemma_id_inverts_from_id(MenuAction::Troubleshooting);
            lemma_id_inverts_from_id(MenuAction::Slack);
            lemma_id_inverts_from_id(MenuAction::Twitter);
            lemma_id_inverts_from_id(MenuAction::YouTube);
            lemma_id_inverts_from_id(MenuAction::About);
            lemma_id_inverts_from_id(MenuAction::CheckUpdates);
            lemma_id_inverts_from_id(MenuAction::Settings);
            lemma_id_inverts_from_id(MenuAction::Quit);
        }
        if same_text(id, config::MENU_OPEN_ID) {
            MenuAction::Open
        } else if same_text(id, config::MENU_FEEDBACK_ID) {
            MenuAction::Feedback
        } else if same_text(id, config::MENU_MANUAL_ID) {
            MenuAction::Manual
        } else if same_text(id, config::MENU_TROUBLESHOOTING_ID) {
            MenuAction::Troubleshooting
        } else if same_text(id, config::MENU_SLACK_ID) {
            MenuAction::Slack
        } else if same_text(id, config::MENU_TWITTER_ID) {
            MenuAction::Twitter
        } else if same_text(id, config::MENU_YOUTUBE_ID) {
            MenuAction::YouTube
        } else if same_text(id, config::MENU_ABOUT_ID) {
            MenuAction::About
        } else if same_text(id, config::MENU_UPDATES_ID) {
            MenuAction::CheckUpdates
        } else if same_text(id, config::MENU_SETTINGS_ID) {
            MenuAction::Settings
        } else if same_text(id, config::MENU_QUIT_ID) {
            MenuAction::Quit
        } else {
            MenuAction::Unknown
        }
    }

    /// Returns true if this action should exit the application, which only
    /// `Quit` does.
    #[verifier::when_used_as_spec(spec_should_exit)]
    pub fn should_exit(&self) -> (exit: bool)
        ensures
            exit == self.spec_should_exit(),
            exit <==> *self == MenuAction::Quit,
    {
        match self {
            MenuAction::Quit => true,
            _ => false,
        }
    }

    /// Returns the link to open for the actions that open one, and `None`
    /// for the others.
    pub fn get_url(&self) -> (url: Option<&'static str>)
        ensures
            url == self.spec_url(),
            url is Some <==> self.is_link(),
            url matches Some(link) ==> config::URL_SCHEME@.is_prefix_of(link@),
    {
        proof {
            lemma_links_are_https(*self);
        }
        match self {
            MenuAction::Feedback => Some(config::URL_FEEDBACK),
            MenuAction::Manual => Some(config::URL_MANUAL),
            MenuAction::Troubleshooting => Some(config::URL_TROUBLESHOOTING),
            MenuAction::Slack => Some(config::URL_SLACK),
            MenuAction::Twitter => Some(config::URL_TWITTER),
            MenuAction::YouTube => Some(config::URL_YOUTUBE),
            _ => None,
        }
    }
}

/// No two menu items share an identifier.
pub proof fn lemma_ids_are_distinct(first: MenuAction, second: MenuAction)
    ensures
        first.spec_id() is Some && first.spec_id() == second.spec_id() ==> first == second,
{
    lemma_menu_id_shapes();
}

/// Every action but `Unknown` has an identifier, and looking that identifier
/// up gives the action back and no other.
pub proof fn lemma_id_inverts_from_id(action: MenuAction)
    ensures
        action.spec_id() is Some <==> action != MenuAction::Unknown,
        action.spec_id() matches Some(id) ==> MenuAction::spec_from_id(id) == action,
{
    if let Some(id) = action.spec_id() {
        lemma_ids_are_distinct(MenuAction::spec_from_id(id), action);
    }
}

/// The lookup yields an action only for that action's own identifier, and
/// `Unknown` exactly for the strings that are no menu item's identifier.
pub proof fn lemma_from_id_inverts_id(id: Seq<char>)
    ensures
        MenuAction::spec_from_id(id) != MenuAction::Unknown ==> MenuAction::spec_from_id(
            id,
        ).spec_id() == Some(id),
        MenuAction::spec_from_id(id) == MenuAction::Unknown <==> !MenuAction::is_menu_id(id),
{
}

/// Only `Quit` ends the application.
pub proof fn lemma_should_exit_iff_quit(action: MenuAction)
    ensures
        action.should_exit() <==> action == MenuAction::Quit,
{
}

/// An action has a link exactly if it is one of the six link actions, and
/// every link starts with the `https://` scheme.
pub proof fn lemma_links_are_https(action: MenuAction)
    ensures
        action.spec_url() is Some <==> action.is_link(),
        action.spec_url() matches Some(link) ==> config::URL_SCHEME@.is_prefix_of(link@),
{
    reveal_strlit("https://");
    reveal_strlit("https://github.com/blackbox-dev/blackbox/issues/new");
    reveal_strlit("https://blackbox.dev/docs");
    reveal_strlit("https://blackbox.dev/docs/troubleshooting");
    reveal_strlit("https://blackbox.dev/community");
    reveal_strlit("https://twitter.com/blackboxdev");
    reveal_strlit("https://youtube.com/@blackboxdev");
}

/// Length and first character of each menu item identifier. Identifiers of
/// one length start with different characters, so no two of them are equal.
proof fn lemma_menu_id_shapes()
    ensures
        config::MENU_OPEN_ID@.len() == 4 && config::MENU_OPEN_ID@[0] == 'o',
        config::MENU_FEEDBACK_ID@.len() == 8 && config::MENU_FEEDBACK_ID@[0] == 'f',
        config::MENU_MANUAL_ID@.len() == 6 && config::MENU_MANUAL_ID@[0] == 'm',
        config::MENU_TROUBLESHOOTING_ID@.len() == 15 && config::MENU_TROUBLESHOOTING_ID@[0] == 't',
        config::MENU_SLACK_ID@.len() == 5 && config::MENU_SLACK_ID@[0] == 's',
        config::MENU_TWITTER_ID@.len() == 7 && config::MENU_TWITTER_ID@[0] == 't',
        config::MENU_YOUTUBE_ID@.len() == 7 && config::MENU_YOUTUBE_ID@[0] == 'y',
        config::MENU_ABOUT_ID@.len() == 5 && config::MENU_ABOUT_ID@[0] == 'a',
        config::MENU_UPDATES_ID@.len() == 7 && config::MENU_UPDATES_ID@[0] == 'u',
        config::MENU_SETTINGS_ID@.len() == 8 && config::MENU_SETTINGS_ID@[0] == 's',
        config::MENU_QUIT_ID@.len() == 4 && config::MENU_QUIT_ID@[0] == 'q',
{
    reveal_strlit("open");
    reveal_strlit("feedback");
    reveal_strlit("manual");
    reveal_strlit("troubleshooting");
    reveal_strlit("slack");
    reveal_strlit("twitter");
    reveal_strlit("youtube");
    reveal_strlit("about");
    reveal_strlit("updates");
    reveal_strlit("settings");
    reveal_strlit("quit");
}

} // verus!
