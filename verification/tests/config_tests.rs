use openxgauthenticator::config::{Config, CredentialError, OldConfig};
use openxgauthenticator::ua::get_current_ua;

const SUFFIX: &str = "(Via libopenxg v0.1.3; Rust Reqwest; OS not shared; https://github.com/Alex-Programs/libopenxg)";
const CHROME_91: &str = "Mozilla/5.0 (Windows NT 10.0; Win64; x64) AppleWebKit/537.36 (KHTML, like Gecko) Chrome/91.0.4472.124 Safari/537.36";

fn old_config(stealth: bool) -> OldConfig {
    OldConfig {
        username: "alice".to_string(),
        password: "secret".to_string(),
        url: "https://10.0.0.1:8090".to_string(),
        keepalive_delay: 60,
        retry_delay: 7,
        do_stealth_ua: stealth,
    }
}

#[test]
fn desktop_defaults() {
    let c = Config::default();
    assert_eq!(c.user_agent, format!("OpenXGAuthenticator GUI {}", SUFFIX));
    assert!(!c.set_ua_most_common);
    assert!(!c.was_last_ua_most_common);
    assert_eq!(c.username, "");
    assert_eq!(c.password, "");
    assert_eq!(c.url, "https://172.29.39.130:8090");
    assert_eq!(c.keepalive_delay, 90);
    assert_eq!(c.retry_delay, 5);
    assert_eq!(c.calc_current_ua, "NO UA");
}

#[test]
fn command_line_defaults() {
    let c = OldConfig::default();
    assert_eq!(c.username, "");
    assert_eq!(c.password, "");
    assert_eq!(c.url, "https://172.29.39.130:8090");
    assert_eq!(c.keepalive_delay, 90);
    assert_eq!(c.retry_delay, 5);
    assert!(!c.do_stealth_ua);
    assert!(c.needs_credentials());
}

#[test]
fn import_without_stealth() {
    let c: Config = old_config(false).into();
    let ua = format!("OpenXGAuthenticator GUI {}", SUFFIX);
    assert_eq!(c.user_agent, ua);
    assert_eq!(c.calc_current_ua, ua);
    assert!(!c.set_ua_most_common);
    assert!(!c.was_last_ua_most_common);
    assert_eq!(c.username, "alice");
    assert_eq!(c.password, "secret");
    assert_eq!(c.url, "https://10.0.0.1:8090");
    assert_eq!(c.keepalive_delay, 60);
    assert_eq!(c.retry_delay, 7);
}

#[test]
fn import_with_stealth() {
    let c: Config = old_config(true).into();
    assert_eq!(c.user_agent, CHROME_91);
    assert_eq!(c.calc_current_ua, CHROME_91);
    assert!(c.set_ua_most_common);
    assert!(c.was_last_ua_most_common);
}

#[test]
fn imported_agent_is_already_current() {
    for stealth in [false, true] {
        let mut c: Config = old_config(stealth).into();
        let before = c.clone();
        c.refresh_current_ua();
        assert_eq!(c.user_agent, before.user_agent);
        assert_eq!(c.calc_current_ua, before.calc_current_ua);
        assert_eq!(c.was_last_ua_most_common, before.was_last_ua_most_common);
    }
}

#[test]
fn credentials_needed_when_one_is_empty() {
    let mut c = old_config(false);
    assert!(!c.needs_credentials());
    c.password = String::new();
    assert!(c.needs_credentials());
    let mut c = old_config(false);
    c.username = String::new();
    assert!(c.needs_credentials());
}

#[test]
fn credentials_are_trimmed_when_confirmed() {
    let mut c = OldConfig::default();
    assert_eq!(c.set_credentials("bob\n", " pw ", " pw "), Ok(()));
    assert_eq!(c.username, "bob");
    assert_eq!(c.password, "pw");
    assert!(!c.needs_credentials());
}

#[test]
fn credentials_refused_on_mismatch() {
    let mut c = OldConfig::default();
    assert_eq!(c.set_credentials("bob\n", "pw", "pw "), Err(CredentialError::PasswordMismatch));
    assert_eq!(c.username, "");
    assert_eq!(c.password, "");
}

#[test]
fn current_agent_choices() {
    let mut c = Config::default();
    c.user_agent = "custom".to_string();
    c.was_last_ua_most_common = true;
    assert_eq!(get_current_ua(&mut c), "custom");
    assert!(!c.was_last_ua_most_common);

    c.set_ua_most_common = true;
    c.was_last_ua_most_common = false;
    assert_eq!(get_current_ua(&mut c), CHROME_91);
    assert!(!c.was_last_ua_most_common);

    c.was_last_ua_most_common = true;
    c.user_agent = "freshest".to_string();
    assert_eq!(get_current_ua(&mut c), "freshest");
    assert!(c.was_last_ua_most_common);
}

#[test]
fn refresh_twice_is_refresh_once() {
    for (set, was) in [(false, false), (false, true), (true, false), (true, true)] {
        let mut c = Config::default();
        c.user_agent = "u".to_string();
        c.set_ua_most_common = set;
        c.was_last_ua_most_common = was;
        c.refresh_current_ua();
        let once = c.clone();
        c.refresh_current_ua();
        assert_eq!(c.calc_current_ua, once.calc_current_ua);
        assert_eq!(c.was_last_ua_most_common, once.was_last_ua_most_common);
        assert_eq!(c.user_agent, once.user_agent);
    }
}

#[test]
fn reset_goes_back_to_default_agent() {
    let mut c = Config::default();
    c.user_agent = "x".to_string();
    c.set_ua_most_common = true;
    c.was_last_ua_most_common = true;
    c.reset_user_agent();
    let ua = format!("OpenXGAuthenticator GUI {}", SUFFIX);
    assert_eq!(c.user_agent, ua);
    assert_eq!(c.calc_current_ua, ua);
    assert!(!c.set_ua_most_common);
    assert!(!c.was_last_ua_most_common);
}
