//! User-agent strings: the fixed agents the programs announce, the agent
//! suffix that `libopenxg` publishes, and the choice of the current agent.
use vstd::prelude::*;
use vstd::string::*;

use crate::config::{Config, ConfigView, OldConfig};

verus! {

/// The text of `libopenxg::DEFAULT_UA_SUFFIX` in the version this crate links.
pub open spec fn libopenxg_suffix() -> Seq<char> {
    "(Via libopenxg v0.1.3; Rust Reqwest; OS not shared; https://github.com/Alex-Programs/libopenxg)"@
}

/// Reads the static `libopenxg::DEFAULT_UA_SUFFIX`. The crate builds it with
/// `formatcp!` from its own package version, 0.1.3 in the version linked here;
/// the contract states that text.
#[verifier::external_body]
fn default_ua_suffix() -> (s: &'static str)
    ensures
        s@ == libopenxg_suffix(),
{
    libopenxg::DEFAULT_UA_SUFFIX
}

/// The agent the desktop program starts with, and goes back to on reset.
pub open spec fn gui_default_ua() -> Seq<char> {
    "OpenXGAuthenticator GUI "@ + libopenxg_suffix()
}

/// A common browser agent that the desktop program shows when it is told to
/// pretend to be the most common browser and has no fresher value.
pub open spec fn common_browser_ua() -> Seq<char> {
    "Mozilla/5.0 (Windows NT 10.0; Win64; x64) AppleWebKit/537.36 (KHTML, like Gecko) Chrome/91.0.4472.124 Safari/537.36"@
}

/// The browser agent that the command-line programs send in stealth mode.
pub open spec fn stealth_ua() -> Seq<char> {
    "Mozilla/5.0 (Windows NT 10.0; Win64; x64) AppleWebKit/537.36 (KHTML, like Gecko) Chrome/60.0.3112.113 Safari/537.36"@
}

/// The agent by which the standalone program announces itself.
pub open spec fn standalone_ua() -> Seq<char> {
    "openxgauthenticator/1.0.0 (OS not shared); Rust Reqwest; by Alex. See openxg.alexcj.co.uk"@
}

/// The agent by which the command-line program announces itself.
pub open spec fn cli_ua() -> Seq<char> {
    "openxgauthenticator-cli/1.1.0 "@ + libopenxg_suffix()
}

/// The desktop program's default agent.
pub fn gui_default_user_agent() -> (s: String)
    ensures
        s@ == gui_default_ua(),
{
    let mut s = "OpenXGAuthenticator GUI ".to_owned();
    s.append(default_ua_suffix());
    s
}

/// The agent that the command-line program sends for `config`: the browser
/// agent in stealth mode, its own name followed by the library suffix otherwise.
pub fn build_cli_ua(config: &OldConfig) -> (s: String)
    ensures
        s@ == (if config.do_stealth_ua { stealth_ua() } else { cli_ua() }),
{
    if config.do_stealth_ua {
        return "Mozilla/5.0 (Windows NT 10.0; Win64; x64) AppleWebKit/537.36 (KHTML, like Gecko) Chrome/60.0.3112.113 Safari/537.36".to_owned();
    }
    let mut s = "openxgauthenticator-cli/1.1.0 ".to_owned();
    s.append(default_ua_suffix());
    s
}

/// The agent that the standalone program sends for `config`: the browser
/// agent in stealth mode, its own announcement otherwise.
pub fn build_ua(config: &OldConfig) -> (s: String)
    ensures
        s@ == (if config.do_stealth_ua { stealth_ua() } else { standalone_ua() }),
{
    if config.do_stealth_ua {
        return "Mozilla/5.0 (Windows NT 10.0; Win64; x64) AppleWebKit/537.36 (KHTML, like Gecko) Chrome/60.0.3112.113 Safari/537.36".to_owned();
    }
    "openxgauthenticator/1.0.0 (OS not shared); Rust Reqwest; by Alex. See openxg.alexcj.co.uk".to_owned()
}

/// The agent that `get_current_ua` reports for a configuration.
pub open spec fn current_ua(c: ConfigView) -> Seq<char> {
    if c.set_ua_most_common && !c.was_last_ua_most_common {
        common_browser_ua()
    } else {
        c.user_agent
    }
}

/// The configuration as `get_current_ua` leaves it: when the most common agent
/// is not asked for, it records that the last agent was not the most common one.
pub open spec fn after_current_ua(c: ConfigView) -> ConfigView {
    if c.set_ua_most_common {
        c
    } else {
        ConfigView { was_last_ua_most_common: false, ..c }
    }
}

/// The agent to use now. With `set_ua_most_common`, the stored agent if it
/// already is the most common one, else a common browser agent; without it,
/// the stored agent, and the configuration then records that the last agent
/// was not the most common one.
pub fn get_current_ua(config: &mut Config) -> (ua: String)
    ensures
        ua@ == current_ua(old(config)@),
        final(config)@ == after_current_ua(old(config)@),
{
    if config.set_ua_most_common {
        if config.was_last_ua_most_common {
            return config.user_agent.clone();
        } else {
            return "Mozilla/5.0 (Windows NT 10.0; Win64; x64) AppleWebKit/537.36 (KHTML, like Gecko) Chrome/91.0.4472.124 Safari/537.36".to_owned();
        }
    }
    config.was_last_ua_most_common = false;
    config.user_agent.clone()
}

/// The configuration once its current agent has been worked out again.
pub open spec fn refreshed(c: ConfigView) -> ConfigView {
    ConfigView { calc_current_ua: current_ua(c), ..after_current_ua(c) }
}

/// The configuration after "reset to default": the default agent, no wish for
/// the most common one, and the current agent worked out again.
pub open spec fn reset_ua(c: ConfigView) -> ConfigView {
    refreshed(ConfigView { user_agent: gui_default_ua(), set_ua_most_common: false, ..c })
}

impl Config {
    /// Works the current agent out again and stores it in `calc_current_ua`.
    pub fn refresh_current_ua(&mut self)
        ensures
            final(self)@ == refreshed(old(self)@),
    {
        let ua = get_current_ua(self);
        self.calc_current_ua = ua;
    }

    /// Goes back to the default agent.
    pub fn reset_user_agent(&mut self)
        ensures
            final(self)@ == reset_ua(old(self)@),
    {
        self.user_agent = gui_default_user_agent();
        self.set_ua_most_common = false;
        self.refresh_current_ua();
    }
}

/// Working the current agent out twice gives what working it out once gives.
pub proof fn lemma_refresh_idempotent(c: ConfigView)
    ensures
        refreshed(refreshed(c)) == refreshed(c),
{
}

/// After a reset, the current agent is the default agent, and neither the wish
/// for the most common agent nor the record of it remains.
pub proof fn lemma_reset_gives_default(c: ConfigView)
    ensures
        reset_ua(c).user_agent == gui_default_ua(),
        reset_ua(c).calc_current_ua == gui_default_ua(),
        !reset_ua(c).set_ua_most_common,
        !reset_ua(c).was_last_ua_most_common,
{
}

} // verus!
