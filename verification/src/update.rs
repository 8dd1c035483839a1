//! The desktop program's background loop, as a state machine. Once a second the
//! caller asks `plan_tick` what to show and which call to make (with the
//! configuration in force and the current Unix time); after a call it hands the
//! outcome back to `after_keepalive` or `after_login`.
use vstd::prelude::*;
use vstd::string::*;

use crate::config::{Config, ConfigView};
use crate::text::{decimal, push_decimal};

verus! {

/// Which kind of call failed last.
#[derive(Debug, Clone, Copy, PartialEq, Eq, Structural)]
pub enum FailureKind {
    Login,
    Keepalive,
}

/// The name of a failure kind, as the status shows it.
pub open spec fn kind_text(k: FailureKind) -> Seq<char> {
    match k {
        FailureKind::Login => "Login"@,
        FailureKind::Keepalive => "Keepalive"@,
    }
}

impl FailureKind {
    /// The name of this failure kind.
    pub fn name(&self) -> (s: String)
        ensures
            s@ == kind_text(*self),
    {
        match self {
            FailureKind::Login => "Login".to_owned(),
            FailureKind::Keepalive => "Keepalive".to_owned(),
        }
    }
}

/// What the background loop remembers between ticks.
#[derive(Debug)]
pub struct UpdateState {
    pub are_logged_in: bool,
    /// Unix time of the last failure.
    pub last_login_fail_time: i64,
    /// The text of the last failure.
    pub last_login_error: String,
    pub last_failure_kind: FailureKind,
    /// Unix time of the last successful login or keepalive (or failed login).
    pub last_keepalive_login_time: i64,
}

/// An `UpdateState` with its text taken as characters.
pub struct UpdateStateView {
    pub logged_in: bool,
    pub fail_time: i64,
    pub error: Seq<char>,
    pub kind: FailureKind,
    pub alive_time: i64,
}

impl View for UpdateState {
    type V = UpdateStateView;

    open spec fn view(&self) -> UpdateStateView {
        UpdateStateView {
            logged_in: self.are_logged_in,
            fail_time: self.last_login_fail_time,
            error: self.last_login_error@,
            kind: self.last_failure_kind,
            alive_time: self.last_keepalive_login_time,
        }
    }
}

/// A call to the firewall, with what is handed to it.
#[derive(Debug)]
pub enum Call {
    Keepalive { url: String, username: String, user_agent: String },
    Login { url: String, username: String, password: String, user_agent: String },
}

/// A `Call` with its texts taken as characters.
pub enum CallView {
    Keepalive { url: Seq<char>, username: Seq<char>, user_agent: Seq<char> },
    Login { url: Seq<char>, username: Seq<char>, password: Seq<char>, user_agent: Seq<char> },
}

impl View for Call {
    type V = CallView;

    open spec fn view(&self) -> CallView {
        match self {
            Call::Keepalive { url, username, user_agent } => CallView::Keepalive {
                url: url@,
                username: username@,
                user_agent: user_agent@,
            },
            Call::Login { url, username, password, user_agent } => CallView::Login {
                url: url@,
                username: username@,
                password: password@,
                user_agent: user_agent@,
            },
        }
    }
}

/// What a tick shows, and the call it makes, if any.
#[derive(Debug)]
pub struct Tick {
    pub status: String,
    pub call: Option<Call>,
}

/// The view of an optional call.
pub open spec fn call_view(c: Option<Call>) -> Option<CallView> {
    match c {
        Some(c) => Some(c@),
        None => None,
    }
}

/// The state the loop starts in: logged out, with no failure yet, at time 0.
pub open spec fn initial_update_state() -> UpdateStateView {
    UpdateStateView {
        logged_in: false,
        fail_time: 0,
        error: Seq::empty(),
        kind: FailureKind::Login,
        alive_time: 0,
    }
}

/// Seconds left at `now` until `delay` seconds after `since`, the delay taken
/// as an `i64` (as `delay as i64` gives it).
pub open spec fn seconds_left(since: i64, delay: u64, now: i64) -> int {
    since + (delay as i64) - now
}

/// The keepalive call for configuration `c`.
pub open spec fn keepalive_call(c: ConfigView) -> CallView {
    CallView::Keepalive { url: c.url, username: c.username, user_agent: c.user_agent }
}

/// The login call for configuration `c`.
pub open spec fn login_call(c: ConfigView) -> CallView {
    CallView::Login {
        url: c.url,
        username: c.username,
        password: c.password,
        user_agent: c.user_agent,
    }
}

/// What a tick at `now` shows, and which call it makes. Logged in, a keepalive
/// is due `keepalive_delay` seconds after the last success; logged out, a login
/// is due `retry_delay` seconds after the last failure. Until then the status
/// counts down.
pub open spec fn tick_plan(s: UpdateStateView, c: ConfigView, now: i64) -> (Seq<char>, Option<CallView>) {
    if s.logged_in {
        let t = seconds_left(s.alive_time, c.keepalive_delay, now);
        if t > 0 {
            ("Logged in ("@ + decimal(t as nat) + "s keepalive)"@, None)
        } else {
            ("Attempting to keepalive"@, Some(keepalive_call(c)))
        }
    } else {
        let t = seconds_left(s.fail_time, c.retry_delay, now);
        if t > 0 {
            (
                kind_text(s.kind) + " error: "@ + s.error + ", ("@ + decimal(t as nat) + "s retry)"@,
                None,
            )
        } else {
            ("Attempting to login"@, Some(login_call(c)))
        }
    }
}

/// The state after a keepalive at `now` that succeeded or failed with `error`.
pub open spec fn state_after_keepalive(s: UpdateStateView, result: Result<(), Seq<char>>, now: i64) -> UpdateStateView {
    match result {
        Ok(()) => UpdateStateView { alive_time: now, ..s },
        Err(e) => UpdateStateView {
            logged_in: false,
            fail_time: now,
            error: e,
            kind: FailureKind::Keepalive,
            ..s
        },
    }
}

/// The status after a keepalive.
pub open spec fn status_after_keepalive(result: Result<(), Seq<char>>) -> Seq<char> {
    match result {
        Ok(()) => "Keepalive successful"@,
        Err(e) => "Keepalive error: "@ + e,
    }
}

/// The state after a login at `now`.
pub open spec fn state_after_login(s: UpdateStateView, result: Result<(), Seq<char>>, now: i64) -> UpdateStateView {
    match result {
        Ok(()) => UpdateStateView { alive_time: now, logged_in: true, ..s },
        Err(e) => UpdateStateView {
            error: e,
            fail_time: now,
            kind: FailureKind::Login,
            alive_time: now,
            ..s
        },
    }
}

/// The status after a login.
pub open spec fn status_after_login(result: Result<(), Seq<char>>) -> Seq<char> {
    match result {
        Ok(()) => "Logged in"@,
        Err(e) => "Login error: "@ + e,
    }
}

/// The outcome of a call, with its error taken as characters.
pub open spec fn outcome_view(r: Result<(), String>) -> Result<(), Seq<char>> {
    match r {
        Ok(()) => Ok(()),
        Err(e) => Err(e@),
    }
}

/// What follows a login: the status to show, and whether the caller must make a
/// fresh client before the next attempt (it must after a failure).
#[derive(Debug)]
pub struct LoginAftermath {
    pub status: String,
    pub reset_client: bool,
}

/// `since + delay - now`, computed without overflow.
fn seconds_left_exec(since: i64, delay: u64, now: i64) -> (t: i128)
    ensures
        t == seconds_left(since, delay, now),
{
    since as i128 + (delay as i64) as i128 - now as i128
}

impl UpdateState {
    /// The state the loop starts in.
    pub fn new() -> (s: UpdateState)
        ensures
            s@ == initial_update_state(),
    {
        UpdateState {
            are_logged_in: false,
            last_login_fail_time: 0,
            last_login_error: String::new(),
            last_failure_kind: FailureKind::Login,
            last_keepalive_login_time: 0,
        }
    }

    /// What to show at `now` under `config`, and which call to make.
    pub fn plan_tick(&self, config: &Config, now: i64) -> (tick: Tick)
        ensures
            (tick.status@, call_view(tick.call)) == tick_plan(self@, config@, now),
    {
        if self.are_logged_in {
            let t = seconds_left_exec(self.last_keepalive_login_time, config.keepalive_delay, now);
            if t > 0 {
                let mut status = "Logged in (".to_owned();
                push_decimal(&mut status, t as u128);
                status.append("s keepalive)");
                Tick { status, call: None }
            } else {
                Tick {
                    status: "Attempting to keepalive".to_owned(),
                    call: Some(
                        Call::Keepalive {
                            url: config.url.clone(),
                            username: config.username.clone(),
                            user_agent: config.user_agent.clone(),
                        },
                    ),
                }
            }
        } else {
            let t = seconds_left_exec(self.last_login_fail_time, config.retry_delay, now);
            if t > 0 {
                let mut status = self.last_failure_kind.name();
                status.append(" error: ");
                status.append(self.last_login_error.as_str());
                status.append(", (");
                push_decimal(&mut status, t as u128);
                status.append("s retry)");
                Tick { status, call: None }
            } else {
                Tick {
                    status: "Attempting to login".to_owned(),
                    call: Some(
                        Call::Login {
                            url: config.url.clone(),
                            username: config.username.clone(),
                            password: config.password.clone(),
                            user_agent: config.user_agent.clone(),
                        },
                    ),
                }
            }
        }
    }

    /// Takes the outcome of a keepalive finished at `now`; returns the status to show.
    pub fn after_keepalive(&mut self, result: Result<(), String>, now: i64) -> (status: String)
        ensures
            final(self)@ == state_after_keepalive(old(self)@, outcome_view(result), now),
            status@ == status_after_keepalive(outcome_view(result)),
    {
        match result {
            Ok(()) => {
                self.last_keepalive_login_time = now;
                "Keepalive successful".to_owned()
            },
            Err(e) => {
                let mut status = "Keepalive error: ".to_owned();
                status.append(e.as_str());
                self.are_logged_in = false;
                self.last_login_fail_time = now;
                self.last_login_error = e;
                self.last_failure_kind = FailureKind::Keepalive;
                status
            },
        }
    }

    /// Takes the outcome of a login finished at `now`; returns the status to
    /// show and whether to make a fresh client.
    pub fn after_login(&mut self, result: Result<(), String>, now: i64) -> (a: LoginAftermath)
        ensures
            final(self)@ == state_after_login(old(self)@, outcome_view(result), now),
            a.status@ == status_after_login(outcome_view(result)),
            a.reset_client == (result is Err),
    {
        match result {
            Ok(()) => {
                self.last_keepalive_login_time = now;
                self.are_logged_in = true;
                LoginAftermath { status: "Logged in".to_owned(), reset_client: false }
            },
            Err(e) => {
                let mut status = "Login error: ".to_owned();
                status.append(e.as_str());
                self.last_login_error = e;
                self.last_login_fail_time = now;
                self.last_failure_kind = FailureKind::Login;
                self.last_keepalive_login_time = now;
                LoginAftermath { status, reset_client: true }
            },
        }
    }
}

/// A tick calls for a keepalive exactly when the loop is logged in and the
/// keepalive delay has passed since the last success, and for a login exactly
/// when it is logged out and the retry delay has passed since the last failure.
pub proof fn lemma_calls_only_when_due(s: UpdateStateView, c: ConfigView, now: i64)
    ensures
        tick_plan(s, c, now).1 == Some(keepalive_call(c)) <==> s.logged_in && seconds_left(
            s.alive_time,
            c.keepalive_delay,
            now,
        ) <= 0,
        tick_plan(s, c, now).1 == Some(login_call(c)) <==> !s.logged_in && seconds_left(
            s.fail_time,
            c.retry_delay,
            now,
        ) <= 0,
{
}

/// After a successful login at `now`, the loop is logged in and makes no call
/// until the keepalive delay has passed; then it keeps the session alive.
pub proof fn lemma_quiet_after_login(s: UpdateStateView, c: ConfigView, now: i64, t: i64)
    ensures
        state_after_login(s, Ok(()), now).logged_in,
        tick_plan(state_after_login(s, Ok(()), now), c, t).1 == (if t < now + (c.keepalive_delay as i64) {
            None
        } else {
            Some(keepalive_call(c))
        }),
{
}

/// After a successful keepalive at `now`, the next keepalive comes once the
/// keepalive delay has passed.
pub proof fn lemma_quiet_after_keepalive(s: UpdateStateView, c: ConfigView, now: i64, t: i64)
    requires
        s.logged_in,
    ensures
        tick_plan(state_after_keepalive(s, Ok(()), now), c, t).1 == (if t < now + (
        c.keepalive_delay as i64) {
            None
        } else {
            Some(keepalive_call(c))
        }),
{
}

/// After a failed keepalive at `now`, the loop is logged out, shows the
/// failure while it waits out the retry delay, then logs in again.
pub proof fn lemma_retry_after_keepalive_failure(
    s: UpdateStateView,
    c: ConfigView,
    e: Seq<char>,
    now: i64,
    t: i64,
)
    ensures
        !state_after_keepalive(s, Err(e), now).logged_in,
        tick_plan(state_after_keepalive(s, Err(e), now), c, t).1 == (if t < now + (
        c.retry_delay as i64) {
            None
        } else {
            Some(login_call(c))
        }),
        t < now + (c.retry_delay as i64) ==> tick_plan(state_after_keepalive(s, Err(e), now), c, t).0
            == "Keepalive"@ + " error: "@ + e + ", ("@ + decimal((now + (c.retry_delay as i64) - t) as nat)
            + "s retry)"@,
{
}

/// After a failed login at `now`, the loop stays logged out, shows the failure
/// while it waits out the retry delay, then tries again.
pub proof fn lemma_retry_after_login_failure(
    s: UpdateStateView,
    c: ConfigView,
    e: Seq<char>,
    now: i64,
    t: i64,
)
    requires
        !s.logged_in,
    ensures
        !state_after_login(s, Err(e), now).logged_in,
        tick_plan(state_after_login(s, Err(e), now), c, t).1 == (if t < now + (c.retry_delay as i64) {
            None
        } else {
            Some(login_call(c))
        }),
        t < now + (c.retry_delay as i64) ==> tick_plan(state_after_login(s, Err(e), now), c, t).0
            == "Login"@ + " error: "@ + e + ", ("@ + decimal((now + (c.retry_delay as i64) - t) as nat)
            + "s retry)"@,
{
}

} // verus!
