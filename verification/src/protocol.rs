//! The firewall's login protocol as the standalone program speaks it: the form
//! it sends, the addresses it sends it to, and how it reads the replies.
use vstd::prelude::*;
use vstd::string::*;

use crate::config::OldConfig;
use crate::text::{contains, decimal, push_decimal, same_text, text_contains};
use crate::ua::{build_ua, standalone_ua, stealth_ua};

verus! {

/// The form fields of a request, as (name, value) texts.
pub open spec fn form_view(form: Seq<(String, String)>) -> Seq<(Seq<char>, Seq<char>)> {
    form.map_values(|p: (String, String)| (p.0@, p.1@))
}

/// The mode that asks the firewall for a login.
pub open spec fn login_mode() -> Seq<char> {
    "191"@
}

/// The mode that tells the firewall the user is still there.
pub open spec fn keepalive_mode() -> Seq<char> {
    "192"@
}

/// The fields of a request in `mode` at Unix time `a` (seconds): the mode, the
/// time, the product type `0` and the username, and the password only for a login.
pub open spec fn request_fields(username: Seq<char>, password: Seq<char>, mode: Seq<char>, a: nat) -> Seq<
    (Seq<char>, Seq<char>),
> {
    let base = seq![
        ("mode"@, mode),
        ("a"@, decimal(a)),
        ("producttype"@, "0"@),
        ("username"@, username),
    ];
    if mode == login_mode() {
        base.push(("password"@, password))
    } else {
        base
    }
}

/// The form of a request in `mode`, sent at Unix time `a` (seconds).
pub fn build_req(username: &str, password: &str, mode: &str, a: u64) -> (form: Vec<(String, String)>)
    ensures
        form_view(form@) == request_fields(username@, password@, mode@, a as nat),
{
    let mut time = String::new();
    push_decimal(&mut time, a as u128);
    let mut form: Vec<(String, String)> = Vec::new();
    form.push(("mode".to_owned(), mode.to_owned()));
    form.push(("a".to_owned(), time));
    form.push(("producttype".to_owned(), "0".to_owned()));
    form.push(("username".to_owned(), username.to_owned()));
    let is_login = same_text(mode, "191");
    if is_login {
        form.push(("password".to_owned(), password.to_owned()));
    }
    assert(form_view(form@) =~= request_fields(username@, password@, mode@, a as nat));
    form
}

/// Where a login is posted.
pub fn login_url(base: &str) -> (url: String)
    ensures
        url@ == base@ + "/login.xml"@,
{
    let mut url = base.to_owned();
    url.append("/login.xml");
    url
}

/// Where a keepalive is sent.
pub fn keepalive_url(base: &str) -> (url: String)
    ensures
        url@ == base@ + "/live"@,
{
    let mut url = base.to_owned();
    url.append("/live");
    url
}

/// Why the firewall's reply does not confirm a request.
#[derive(Debug, PartialEq, Eq, Structural)]
pub enum Rejection {
    /// The status was not 200.
    BadStatus,
    /// The page says the username or password is wrong.
    WrongCredentials,
    /// The page does not say that the user is signed in.
    Unconfirmed,
}

/// The text of a rejection, as the programs report it.
pub open spec fn rejection_text(r: Rejection) -> Seq<char> {
    match r {
        Rejection::BadStatus => "Invalid status code"@,
        Rejection::WrongCredentials => "Invalid username or password"@,
        Rejection::Unconfirmed => "Login failed - unknown err"@,
    }
}

impl Rejection {
    /// The text of this rejection.
    pub fn message(&self) -> (s: String)
        ensures
            s@ == rejection_text(*self),
    {
        match self {
            Rejection::BadStatus => "Invalid status code".to_owned(),
            Rejection::WrongCredentials => "Invalid username or password".to_owned(),
            Rejection::Unconfirmed => "Login failed - unknown err".to_owned(),
        }
    }
}

/// What the page says when the credentials are wrong.
pub open spec fn wrong_credentials_marker() -> Seq<char> {
    "Invalid user name/password"@
}

/// What the page says once the user is signed in (the firewall's template,
/// placeholder included).
pub open spec fn signed_in_marker() -> Seq<char> {
    "You are signed in as {username}"@
}

/// How the status of a reply is judged: only 200 confirms a request.
pub open spec fn status_verdict(status: u16) -> Result<(), Rejection> {
    if status == 200 {
        Ok(())
    } else {
        Err(Rejection::BadStatus)
    }
}

/// How the page of a login reply is judged: it must not report wrong
/// credentials, and it must say that the user is signed in.
pub open spec fn page_verdict(body: Seq<char>) -> Result<(), Rejection> {
    if contains(body, wrong_credentials_marker()) {
        Err(Rejection::WrongCredentials)
    } else if !contains(body, signed_in_marker()) {
        Err(Rejection::Unconfirmed)
    } else {
        Ok(())
    }
}

/// How a login reply with `status` and `body` is judged: the status first,
/// then the page.
pub open spec fn login_verdict(status: u16, body: Seq<char>) -> Result<(), Rejection> {
    match status_verdict(status) {
        Ok(()) => page_verdict(body),
        Err(r) => Err(r),
    }
}

/// Judges the status of a reply, login or keepalive; a keepalive reply is
/// judged by its status alone.
pub fn check_status(status: u16) -> (r: Result<(), Rejection>)
    ensures
        r == status_verdict(status),
{
    if status != 200 {
        return Err(Rejection::BadStatus);
    }
    Ok(())
}

/// Judges the page of a login reply whose status was accepted.
pub fn check_login_page(body: &str) -> (r: Result<(), Rejection>)
    ensures
        r == page_verdict(body@),
        contains(body@, "Invalid user name/password"@) ==> r == Err::<(), Rejection>(
            Rejection::WrongCredentials,
        ),
        r is Ok ==> contains(body@, "You are signed in as {username}"@),
{
    if text_contains(body, "Invalid user name/password") {
        return Err(Rejection::WrongCredentials);
    }
    if !text_contains(body, "You are signed in as {username}") {
        return Err(Rejection::Unconfirmed);
    }
    Ok(())
}

/// A login is accepted exactly when the status is 200, the page does not
/// report wrong credentials, and it says the user is signed in.
pub proof fn lemma_login_accepted(status: u16, body: Seq<char>)
    ensures
        login_verdict(status, body) is Ok <==> status == 200 && !contains(
            body,
            wrong_credentials_marker(),
        ) && contains(body, signed_in_marker()),
{
}

/// A request for the firewall: where it goes, the form it carries (as a form
/// body for a login, as query parameters for a keepalive) and the agent it names.
#[derive(Debug)]
pub struct FirewallRequest {
    pub url: String,
    pub form: Vec<(String, String)>,
    pub user_agent: String,
}

/// The agent the standalone program names for a configuration with `stealth` set or not.
pub open spec fn standalone_agent(stealth: bool) -> Seq<char> {
    if stealth { stealth_ua() } else { standalone_ua() }
}

/// The standalone program's login request for `config`, made at Unix time `now`.
pub fn login_request(config: &OldConfig, now: u64) -> (r: FirewallRequest)
    ensures
        r.url@ == config.url@ + "/login.xml"@,
        form_view(r.form@) == request_fields(config.username@, config.password@, login_mode(), now as nat),
        r.user_agent@ == standalone_agent(config.do_stealth_ua),
        !config.do_stealth_ua ==> r.user_agent@ == "openxgauthenticator/1.0.0 (OS not shared); Rust Reqwest; by Alex. See openxg.alexcj.co.uk"@,
        config.do_stealth_ua ==> r.user_agent@ == "Mozilla/5.0 (Windows NT 10.0; Win64; x64) AppleWebKit/537.36 (KHTML, like Gecko) Chrome/60.0.3112.113 Safari/537.36"@,
{
    FirewallRequest {
        url: login_url(config.url.as_str()),
        form: build_req(config.username.as_str(), config.password.as_str(), "191", now),
        user_agent: build_ua(config),
    }
}

/// The standalone program's keepalive request for `config`, made at Unix time `now`.
pub fn keepalive_request(config: &OldConfig, now: u64) -> (r: FirewallRequest)
    ensures
        r.url@ == config.url@ + "/live"@,
        form_view(r.form@) == request_fields(config.username@, config.password@, keepalive_mode(), now as nat),
        r.user_agent@ == standalone_agent(config.do_stealth_ua),
        !config.do_stealth_ua ==> r.user_agent@ == "openxgauthenticator/1.0.0 (OS not shared); Rust Reqwest; by Alex. See openxg.alexcj.co.uk"@,
        config.do_stealth_ua ==> r.user_agent@ == "Mozilla/5.0 (Windows NT 10.0; Win64; x64) AppleWebKit/537.36 (KHTML, like Gecko) Chrome/60.0.3112.113 Safari/537.36"@,
{
    FirewallRequest {
        url: keepalive_url(config.url.as_str()),
        form: build_req(config.username.as_str(), config.password.as_str(), "192", now),
        user_agent: build_ua(config),
    }
}

/// Only a login request carries the password: a keepalive names the user and
/// nothing more.
pub proof fn lemma_password_only_for_login(username: Seq<char>, password: Seq<char>, a: nat)
    ensures
        request_fields(username, password, login_mode(), a).len() == 5,
        request_fields(username, password, login_mode(), a)[4] == ("password"@, password),
        request_fields(username, password, keepalive_mode(), a).len() == 4,
        forall|i: int|
            0 <= i < 4 ==> #[trigger] request_fields(username, password, keepalive_mode(), a)[i].0
                != "password"@,
{
    reveal_strlit("191");
    reveal_strlit("192");
    reveal_strlit("password");
    reveal_strlit("mode");
    reveal_strlit("a");
    reveal_strlit("producttype");
    reveal_strlit("username");
    assert(keepalive_mode() != login_mode()) by {
        assert(keepalive_mode()[2] != login_mode()[2]);
    }
    let f = request_fields(username, password, keepalive_mode(), a);
    assert(f[0].0.len() != 8 || f[0].0[0] != 'p');
    assert(f[1].0.len() != 8);
    assert(f[2].0.len() != 8);
    assert(f[3].0[0] != 'p');
}

/// A page that reports wrong credentials is judged as wrong credentials,
/// whether or not it also says that the user is signed in; a page is accepted
/// only when it says the user is signed in and does not report wrong credentials.
pub proof fn lemma_wrong_credentials_first(body: Seq<char>)
    ensures
        contains(body, "Invalid user name/password"@) ==> page_verdict(body) == Err::<(), Rejection>(
            Rejection::WrongCredentials,
        ),
        page_verdict(body) is Ok <==> !contains(body, "Invalid user name/password"@) && contains(
            body,
            "You are signed in as {username}"@,
        ),
        !contains(body, "Invalid user name/password"@) && !contains(body, "You are signed in as {username}"@)
            ==> page_verdict(body) == Err::<(), Rejection>(Rejection::Unconfirmed),
{
}

/// The standalone program names itself, not the command-line program, unless
/// told to pass for a browser.
pub proof fn lemma_standalone_agent_text()
    ensures
        standalone_agent(false) == "openxgauthenticator/1.0.0 (OS not shared); Rust Reqwest; by Alex. See openxg.alexcj.co.uk"@,
        standalone_agent(true) == "Mozilla/5.0 (Windows NT 10.0; Win64; x64) AppleWebKit/537.36 (KHTML, like Gecko) Chrome/60.0.3112.113 Safari/537.36"@,
{
}

} // verus!
