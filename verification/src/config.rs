//! The two configuration formats: the one the desktop program keeps, and the
//! older one that the command-line programs keep (and that the desktop program
//! can import).
use vstd::prelude::*;

use crate::text::{trim, trimmed, same_text};
use crate::ua::{common_browser_ua, gui_default_ua, gui_default_user_agent};

verus! {

/// The desktop program's configuration.
#[derive(Debug, Clone)]
pub struct Config {
    pub user_agent: String,
    pub set_ua_most_common: bool,
    pub was_last_ua_most_common: bool,
    pub username: String,
    pub password: String,
    pub url: String,
    pub keepalive_delay: u64,
    pub retry_delay: u64,
    pub calc_current_ua: String,
}

/// A `Config` with its texts taken as character sequences.
pub struct ConfigView {
    pub user_agent: Seq<char>,
    pub set_ua_most_common: bool,
    pub was_last_ua_most_common: bool,
    pub username: Seq<char>,
    pub password: Seq<char>,
    pub url: Seq<char>,
    pub keepalive_delay: u64,
    pub retry_delay: u64,
    pub calc_current_ua: Seq<char>,
}

impl View for Config {
    type V = ConfigView;

    open spec fn view(&self) -> ConfigView {
        ConfigView {
            user_agent: self.user_agent@,
            set_ua_most_common: self.set_ua_most_common,
            was_last_ua_most_common: self.was_last_ua_most_common,
            username: self.username@,
            password: self.password@,
            url: self.url@,
            keepalive_delay: self.keepalive_delay,
            retry_delay: self.retry_delay,
            calc_current_ua: self.calc_current_ua@,
        }
    }
}

/// The firewall address that both formats start with.
pub open spec fn default_url() -> Seq<char> {
    "https://172.29.39.130:8090"@
}

fn default_url_string() -> (s: String)
    ensures
        s@ == default_url(),
{
    "https://172.29.39.130:8090".to_owned()
}

/// The desktop program's configuration before anything is saved.
pub open spec fn default_config() -> ConfigView {
    ConfigView {
        user_agent: gui_default_ua(),
        set_ua_most_common: false,
        was_last_ua_most_common: false,
        username: Seq::empty(),
        password: Seq::empty(),
        url: default_url(),
        keepalive_delay: 90,
        retry_delay: 5,
        calc_current_ua: "NO UA"@,
    }
}

impl Default for Config {
    fn default() -> (c: Self)
        ensures
            c@ == default_config(),
    {
        Config {
            user_agent: gui_default_user_agent(),
            set_ua_most_common: false,
            was_last_ua_most_common: false,
            username: String::new(),
            password: String::new(),
            url: default_url_string(),
            keepalive_delay: 90,
            retry_delay: 5,
            calc_current_ua: "NO UA".to_owned(),
        }
    }
}

/// The command-line programs' configuration.
#[derive(Debug)]
pub struct OldConfig {
    pub username: String,
    pub password: String,
    pub url: String,
    pub keepalive_delay: u64,
    pub retry_delay: u64,
    pub do_stealth_ua: bool,
}

/// An `OldConfig` with its texts taken as character sequences.
pub struct OldConfigView {
    pub username: Seq<char>,
    pub password: Seq<char>,
    pub url: Seq<char>,
    pub keepalive_delay: u64,
    pub retry_delay: u64,
    pub do_stealth_ua: bool,
}

impl View for OldConfig {
    type V = OldConfigView;

    open spec fn view(&self) -> OldConfigView {
        OldConfigView {
            username: self.username@,
            password: self.password@,
            url: self.url@,
            keepalive_delay: self.keepalive_delay,
            retry_delay: self.retry_delay,
            do_stealth_ua: self.do_stealth_ua,
        }
    }
}

/// The command-line programs' configuration before anything is saved.
pub open spec fn default_old_config() -> OldConfigView {
    OldConfigView {
        username: Seq::empty(),
        password: Seq::empty(),
        url: default_url(),
        keepalive_delay: 90,
        retry_delay: 5,
        do_stealth_ua: false,
    }
}

impl Default for OldConfig {
    fn default() -> (c: Self)
        ensures
            c@ == default_old_config(),
    {
        OldConfig {
            username: String::new(),
            password: String::new(),
            url: default_url_string(),
            keepalive_delay: 90,
            retry_delay: 5,
            do_stealth_ua: false,
        }
    }
}

/// The desktop configuration imported from an old one: stealth mode becomes the
/// wish for the most common agent, with a common browser agent standing in for it.
pub open spec fn imported_config(o: OldConfigView) -> ConfigView {
    let ua = if o.do_stealth_ua { common_browser_ua() } else { gui_default_ua() };
    ConfigView {
        user_agent: ua,
        set_ua_most_common: o.do_stealth_ua,
        was_last_ua_most_common: o.do_stealth_ua,
        username: o.username,
        password: o.password,
        url: o.url,
        keepalive_delay: o.keepalive_delay,
        retry_delay: o.retry_delay,
        calc_current_ua: ua,
    }
}

/// Why entered credentials were refused.
#[derive(Debug, PartialEq, Eq, Structural)]
pub enum CredentialError {
    /// The password and its confirmation differ.
    PasswordMismatch,
}

impl OldConfig {
    /// The same settings in the desktop program's format.
    pub fn into(self) -> (c: Config)
        ensures
            c@ == imported_config(self@),
    {
        let ua = if self.do_stealth_ua {
            "Mozilla/5.0 (Windows NT 10.0; Win64; x64) AppleWebKit/537.36 (KHTML, like Gecko) Chrome/91.0.4472.124 Safari/537.36".to_owned()
        } else {
            gui_default_user_agent()
        };
        Config {
            user_agent: ua.clone(),
            set_ua_most_common: self.do_stealth_ua,
            was_last_ua_most_common: self.do_stealth_ua,
            username: self.username,
            password: self.password,
            url: self.url,
            keepalive_delay: self.keepalive_delay,
            retry_delay: self.retry_delay,
            calc_current_ua: ua,
        }
    }

    /// The programs ask for credentials when either of them is empty.
    pub fn needs_credentials(&self) -> (r: bool)
        ensures
            r == (self.username@.len() == 0 || self.password@.len() == 0),
    {
        self.username.as_str().is_empty() || self.password.as_str().is_empty()
    }

    /// Takes credentials as they were typed. When the password and its
    /// confirmation differ (as typed), nothing changes and the entry is refused;
    /// otherwise the username and the password are stored without surrounding
    /// whitespace.
    pub fn set_credentials(&mut self, username: &str, password: &str, confirmation: &str) -> (r:
        Result<(), CredentialError>)
        ensures
            r is Err <==> password@ != confirmation@,
            r is Err ==> r == Err::<(), CredentialError>(CredentialError::PasswordMismatch)
                && final(self)@ == old(self)@,
            r is Ok ==> final(self)@ == (OldConfigView {
                username: trim(username@),
                password: trim(password@),
                ..old(self)@
            }),
    {
        if !same_text(password, confirmation) {
            return Err(CredentialError::PasswordMismatch);
        }
        self.username = trimmed(username);
        self.password = trimmed(password);
        Ok(())
    }
}

/// An imported configuration keeps the credentials, the address and the delays,
/// and its current agent is already worked out.
pub proof fn lemma_import_keeps_settings(o: OldConfigView)
    ensures
        imported_config(o).username == o.username,
        imported_config(o).password == o.password,
        imported_config(o).url == o.url,
        imported_config(o).keepalive_delay == o.keepalive_delay,
        imported_config(o).retry_delay == o.retry_delay,
        crate::ua::refreshed(imported_config(o)) == imported_config(o),
{
}

} // verus!
