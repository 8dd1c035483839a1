//! The desktop program's window state, without the drawing: which
//! configuration it edits and whether it offers to import an old one.
use vstd::prelude::*;

use crate::config::{default_config, imported_config, Config, ConfigView, OldConfig};
use crate::ua::{refreshed, reset_ua};

verus! {

/// The desktop program's state.
#[derive(Debug)]
pub struct OpenXGApp {
    /// The configuration being edited.
    pub config: Config,
    /// Whether to offer importing the old configuration.
    pub show_old_config_popup: bool,
}

/// The configuration the window starts with: the saved one if it could be
/// loaded, the default otherwise, with its current agent worked out.
pub open spec fn starting_config(loaded: Option<ConfigView>) -> ConfigView {
    match loaded {
        Some(c) => refreshed(c),
        None => refreshed(default_config()),
    }
}

/// The view of an optional configuration.
pub open spec fn loaded_view(loaded: Option<Config>) -> Option<ConfigView> {
    match loaded {
        Some(c) => Some(c@),
        None => None,
    }
}

impl OpenXGApp {
    /// The window's state at start, given the configuration that could be
    /// loaded (if any) and whether an old configuration is there to import.
    pub fn new(loaded: Option<Config>, old_config_exists: bool) -> (app: OpenXGApp)
        ensures
            app.config@ == starting_config(loaded_view(loaded)),
            app.show_old_config_popup == old_config_exists,
            loaded matches Some(c) ==> {
                &&& app.config.url@ == c.url@
                &&& app.config.username@ == c.username@
                &&& app.config.password@ == c.password@
                &&& app.config.keepalive_delay == c.keepalive_delay
                &&& app.config.retry_delay == c.retry_delay
                &&& app.config.user_agent@ == c.user_agent@
                &&& app.config.set_ua_most_common == c.set_ua_most_common
            },
            loaded is None ==> {
                &&& app.config.url@ == "https://172.29.39.130:8090"@
                &&& app.config.username@.len() == 0
                &&& app.config.password@.len() == 0
                &&& app.config.keepalive_delay == 90
                &&& app.config.retry_delay == 5
            },
    {
        let mut config = match loaded {
            Some(c) => c,
            None => Config::default(),
        };
        config.refresh_current_ua();
        OpenXGApp { config, show_old_config_popup: old_config_exists }
    }

    /// The user accepts the import: the old configuration replaces the current one.
    pub fn accept_old_config(&mut self, old: OldConfig)
        ensures
            final(self).config@ == imported_config(old@),
            !final(self).show_old_config_popup,
    {
        self.config = old.into();
        self.show_old_config_popup = false;
    }

    /// The user declines the import.
    pub fn dismiss_old_config(&mut self)
        ensures
            final(self).config@ == old(self).config@,
            !final(self).show_old_config_popup,
    {
        self.show_old_config_popup = false;
    }

    /// "Reset UA to default".
    pub fn reset_user_agent(&mut self)
        ensures
            final(self).config@ == reset_ua(old(self).config@),
            final(self).show_old_config_popup == old(self).show_old_config_popup,
    {
        self.config.reset_user_agent();
    }

    /// "Save": the current agent is worked out again before the configuration is stored.
    pub fn prepare_save(&mut self)
        ensures
            final(self).config@ == refreshed(old(self).config@),
            final(self).show_old_config_popup == old(self).show_old_config_popup,
    {
        self.config.refresh_current_ua();
    }
}

/// Starting from a saved configuration keeps every saved setting (address,
/// credentials, delays, agent and the wish for the most common agent); only the
/// worked-out current agent and the record of it may change.
pub proof fn lemma_start_keeps_saved_settings(c: ConfigView)
    ensures
        starting_config(Some(c)).url == c.url,
        starting_config(Some(c)).username == c.username,
        starting_config(Some(c)).password == c.password,
        starting_config(Some(c)).keepalive_delay == c.keepalive_delay,
        starting_config(Some(c)).retry_delay == c.retry_delay,
        starting_config(Some(c)).user_agent == c.user_agent,
        starting_config(Some(c)).set_ua_most_common == c.set_ua_most_common,
{
}

/// Starting without a saved configuration uses the default address, empty
/// credentials and the default delays.
pub proof fn lemma_start_without_saved_uses_defaults()
    ensures
        starting_config(None).url == "https://172.29.39.130:8090"@,
        starting_config(None).username.len() == 0,
        starting_config(None).password.len() == 0,
        starting_config(None).keepalive_delay == 90,
        starting_config(None).retry_delay == 5,
{
}

} // verus!
