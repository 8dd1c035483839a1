use openxgauthenticator::config::OldConfig;
use openxgauthenticator::protocol::{
    build_req, check_login_page, check_status, keepalive_request, keepalive_url,
    login_request, login_url, Rejection,
};
use openxgauthenticator::ua::{build_cli_ua, build_ua, gui_default_user_agent};

const SUFFIX: &str = "(Via libopenxg v0.1.3; Rust Reqwest; OS not shared; https://github.com/Alex-Programs/libopenxg)";
const CHROME_60: &str = "Mozilla/5.0 (Windows NT 10.0; Win64; x64) AppleWebKit/537.36 (KHTML, like Gecko) Chrome/60.0.3112.113 Safari/537.36";

fn pairs(v: &[(&str, &str)]) -> Vec<(String, String)> {
    v.iter().map(|(a, b)| (a.to_string(), b.to_string())).collect()
}

#[test]
fn login_form_carries_password() {
    let form = build_req("alice", "pw", "191", 1700000000);
    assert_eq!(
        form,
        pairs(&[
            ("mode", "191"),
            ("a", "1700000000"),
            ("producttype", "0"),
            ("username", "alice"),
            ("password", "pw"),
        ])
    );
}

#[test]
fn keepalive_form_has_no_password() {
    let form = build_req("alice", "pw", "192", 5);
    assert_eq!(
        form,
        pairs(&[("mode", "192"), ("a", "5"), ("producttype", "0"), ("username", "alice")])
    );
    assert!(form.iter().all(|(k, _)| k != "password"));
}

#[test]
fn addresses() {
    assert_eq!(login_url("https://172.29.39.130:8090"), "https://172.29.39.130:8090/login.xml");
    assert_eq!(keepalive_url("https://172.29.39.130:8090"), "https://172.29.39.130:8090/live");
}

#[test]
fn login_reply_rejected_for_status() {
    assert_eq!(check_status(500), Err(Rejection::BadStatus));
    assert_eq!(check_status(302), Err(Rejection::BadStatus));
    assert_eq!(Rejection::BadStatus.message(), "Invalid status code");
}

#[test]
fn login_reply_rejected_for_credentials() {
    let body = "<p>Invalid user name/password</p> You are signed in as {username}";
    assert_eq!(check_login_page(body), Err(Rejection::WrongCredentials));
    assert_eq!(Rejection::WrongCredentials.message(), "Invalid username or password");
}

#[test]
fn login_reply_unconfirmed() {
    assert_eq!(check_login_page("<xml>welcome alice</xml>"), Err(Rejection::Unconfirmed));
    assert_eq!(Rejection::Unconfirmed.message(), "Login failed - unknown err");
}

#[test]
fn login_reply_accepted() {
    assert_eq!(check_status(200), Ok(()));
    assert_eq!(check_login_page("<xml>You are signed in as {username}</xml>"), Ok(()));
}

#[test]
fn keepalive_reply() {
    assert_eq!(check_status(200), Ok(()));
    assert_eq!(check_status(404), Err(Rejection::BadStatus));
}

fn cfg(stealth: bool) -> OldConfig {
    OldConfig {
        username: "alice".to_string(),
        password: "pw".to_string(),
        url: "https://fw:8090".to_string(),
        keepalive_delay: 90,
        retry_delay: 5,
        do_stealth_ua: stealth,
    }
}

#[test]
fn standalone_agents() {
    assert_eq!(build_ua(&cfg(true)), CHROME_60);
    assert_eq!(
        build_ua(&cfg(false)),
        "openxgauthenticator/1.0.0 (OS not shared); Rust Reqwest; by Alex. See openxg.alexcj.co.uk"
    );
}

#[test]
fn command_line_agents() {
    assert_eq!(build_cli_ua(&cfg(true)), CHROME_60);
    assert_eq!(build_cli_ua(&cfg(false)), format!("openxgauthenticator-cli/1.1.0 {}", SUFFIX));
}

#[test]
fn library_suffix_is_read() {
    assert_eq!(gui_default_user_agent(), format!("OpenXGAuthenticator GUI {}", libopenxg::DEFAULT_UA_SUFFIX));
    assert_eq!(libopenxg::DEFAULT_UA_SUFFIX, SUFFIX);
}

#[test]
fn standalone_requests() {
    let r = login_request(&cfg(false), 42);
    assert_eq!(r.url, "https://fw:8090/login.xml");
    assert_eq!(r.form.len(), 5);
    assert_eq!(r.form[4], ("password".to_string(), "pw".to_string()));
    assert_eq!(r.form[1], ("a".to_string(), "42".to_string()));
    let k = keepalive_request(&cfg(true), 43);
    assert_eq!(k.url, "https://fw:8090/live");
    assert_eq!(k.form.len(), 4);
    assert_eq!(k.form[0], ("mode".to_string(), "192".to_string()));
    assert_eq!(k.user_agent, CHROME_60);
}
