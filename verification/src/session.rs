//! The command-line programs' session loop, as a state machine: log in until
//! the firewall accepts, then keep the session alive, and go back to logging in
//! after too many keepalive failures in a row. The caller performs each call and
//! each pause; this module decides what comes next.
use vstd::prelude::*;
use vstd::string::*;

use crate::config::OldConfig;
use crate::text::{decimal, push_decimal};

verus! {

/// The pauses and the failure limit of a session.
#[derive(Debug, Clone, Copy, PartialEq, Eq, Structural)]
pub struct RetryPolicy {
    /// Seconds between keepalives, and before the first one.
    pub keepalive_delay: u64,
    /// Seconds before a failed call is tried again.
    pub retry_delay: u64,
    /// Keepalive failures in a row that are tolerated; one more sends the
    /// session back to logging in.
    pub max_failures: u32,
}

impl RetryPolicy {
    /// The standalone program's policy: three failures are tolerated.
    pub fn standalone(config: &OldConfig) -> (p: RetryPolicy)
        ensures
            p == (RetryPolicy {
                keepalive_delay: config.keepalive_delay,
                retry_delay: config.retry_delay,
                max_failures: 3,
            }),
    {
        RetryPolicy {
            keepalive_delay: config.keepalive_delay,
            retry_delay: config.retry_delay,
            max_failures: 3,
        }
    }

    /// The command-line program's policy: two failures are tolerated.
    pub fn cli(config: &OldConfig) -> (p: RetryPolicy)
        ensures
            p == (RetryPolicy {
                keepalive_delay: config.keepalive_delay,
                retry_delay: config.retry_delay,
                max_failures: 2,
            }),
    {
        RetryPolicy {
            keepalive_delay: config.keepalive_delay,
            retry_delay: config.retry_delay,
            max_failures: 2,
        }
    }
}

/// Which call the session makes next.
#[derive(Debug, Clone, Copy, PartialEq, Eq, Structural)]
pub enum Phase {
    LoggingIn,
    KeepingAlive,
}

/// Where a session stands.
#[derive(Debug, Clone, Copy, PartialEq, Eq, Structural)]
pub struct Session {
    pub phase: Phase,
    /// Keepalive failures in a row.
    pub fail_count: u32,
}

/// What the session reports after a call.
#[derive(Debug, Clone, Copy, PartialEq, Eq, Structural)]
pub enum Notice {
    /// The login succeeded.
    LoggedIn,
    /// Keepalives begin after this many seconds.
    KeepaliveStartsIn(u64),
    /// The login failed; it is tried again after this many seconds.
    RetryingLogin(u64),
    /// The keepalive succeeded; the next one follows after this many seconds.
    KeptAlive(u64),
    /// Too many keepalives failed; the session logs in again at once.
    TooManyFailures,
    /// The keepalive failed: pause in seconds, failures so far, failures tolerated.
    RetryingKeepalive(u64, u32, u32),
}

/// What follows a call: what to report, and how long to pause before the next
/// call (no pause where `None`).
#[derive(Debug)]
pub struct Step {
    pub notices: Vec<Notice>,
    pub pause: Option<u64>,
}

/// The session a program starts with.
pub open spec fn initial_session() -> Session {
    Session { phase: Phase::LoggingIn, fail_count: 0 }
}

/// A session that respects its policy's failure limit.
pub open spec fn session_wf(s: Session, p: RetryPolicy) -> bool {
    s.fail_count <= p.max_failures
}

/// The session after a call that `succeeded` (or not), what is reported, and the pause.
pub open spec fn next_session(s: Session, p: RetryPolicy, succeeded: bool) -> (Session, Seq<Notice>, Option<u64>) {
    match s.phase {
        Phase::LoggingIn => if succeeded {
            (
                Session { phase: Phase::KeepingAlive, fail_count: 0 },
                seq![Notice::LoggedIn, Notice::KeepaliveStartsIn(p.keepalive_delay)],
                Some(p.keepalive_delay),
            )
        } else {
            (s, seq![Notice::RetryingLogin(p.retry_delay)], Some(p.retry_delay))
        },
        Phase::KeepingAlive => if succeeded {
            (
                Session { phase: Phase::KeepingAlive, fail_count: 0 },
                seq![Notice::KeptAlive(p.keepalive_delay)],
                Some(p.keepalive_delay),
            )
        } else if s.fail_count + 1 > p.max_failures {
            (Session { phase: Phase::LoggingIn, fail_count: 0 }, seq![Notice::TooManyFailures], None)
        } else {
            let f = (s.fail_count + 1) as u32;
            (
                Session { phase: Phase::KeepingAlive, fail_count: f },
                seq![Notice::RetryingKeepalive(p.retry_delay, f, p.max_failures)],
                Some(p.retry_delay),
            )
        },
    }
}

impl Session {
    /// A session that has not logged in yet.
    pub fn new() -> (s: Session)
        ensures
            s == initial_session(),
    {
        Session { phase: Phase::LoggingIn, fail_count: 0 }
    }

    /// Takes the outcome of the call that `phase` asked for, moves the session
    /// on, and says what to report and how long to pause.
    pub fn record(&mut self, policy: &RetryPolicy, succeeded: bool) -> (step: Step)
        ensures
            (*final(self), step.notices@, step.pause) == next_session(*old(self), *policy, succeeded),
    {
        match self.phase {
            Phase::LoggingIn => {
                if succeeded {
                    self.phase = Phase::KeepingAlive;
                    self.fail_count = 0;
                    let mut notices = Vec::new();
                    notices.push(Notice::LoggedIn);
                    notices.push(Notice::KeepaliveStartsIn(policy.keepalive_delay));
                    assert(notices@ =~= seq![Notice::LoggedIn, Notice::KeepaliveStartsIn(policy.keepalive_delay)]);
                    Step { notices, pause: Some(policy.keepalive_delay) }
                } else {
                    let mut notices = Vec::new();
                    notices.push(Notice::RetryingLogin(policy.retry_delay));
                    assert(notices@ =~= seq![Notice::RetryingLogin(policy.retry_delay)]);
                    Step { notices, pause: Some(policy.retry_delay) }
                }
            },
            Phase::KeepingAlive => {
                if succeeded {
                    self.fail_count = 0;
                    let mut notices = Vec::new();
                    notices.push(Notice::KeptAlive(policy.keepalive_delay));
                    assert(notices@ =~= seq![Notice::KeptAlive(policy.keepalive_delay)]);
                    Step { notices, pause: Some(policy.keepalive_delay) }
                } else if self.fail_count >= policy.max_failures {
                    self.phase = Phase::LoggingIn;
                    self.fail_count = 0;
                    let mut notices = Vec::new();
                    notices.push(Notice::TooManyFailures);
                    assert(notices@ =~= seq![Notice::TooManyFailures]);
                    Step { notices, pause: None }
                } else {
                    self.fail_count = self.fail_count + 1;
                    let mut notices = Vec::new();
                    notices.push(
                        Notice::RetryingKeepalive(
                            policy.retry_delay,
                            self.fail_count,
                            policy.max_failures,
                        ),
                    );
                    assert(notices@ =~= seq![
                        Notice::RetryingKeepalive(
                            policy.retry_delay,
                            self.fail_count,
                            policy.max_failures,
                        ),
                    ]);
                    Step { notices, pause: Some(policy.retry_delay) }
                }
            },
        }
    }
}

/// The text of a notice, as the programs print it.
pub open spec fn notice_text(n: Notice) -> Seq<char> {
    match n {
        Notice::LoggedIn => "Success logging in!"@,
        Notice::KeepaliveStartsIn(d) => "Beginning keepalive loop in "@ + decimal(d as nat)
            + " secs"@,
        Notice::RetryingLogin(d) => "Failure! Sleeping for "@ + decimal(d as nat)
            + " seconds before retrying login."@,
        Notice::KeptAlive(d) => "Success! Sleeping for "@ + decimal(d as nat)
            + " seconds before redoing keepalive."@,
        Notice::TooManyFailures => "Too many failures. Retrying login."@,
        Notice::RetryingKeepalive(d, f, m) => "Failure! Sleeping for "@ + decimal(d as nat)
            + " seconds before retrying keepalive. Failure count: "@ + decimal(f as nat) + "/"@
            + decimal(m as nat),
    }
}

impl Notice {
    /// The text of this notice.
    pub fn text(&self) -> (s: String)
        ensures
            s@ == notice_text(*self),
    {
        match *self {
            Notice::LoggedIn => "Success logging in!".to_owned(),
            Notice::KeepaliveStartsIn(d) => {
                let mut s = "Beginning keepalive loop in ".to_owned();
                push_decimal(&mut s, d as u128);
                s.append(" secs");
                s
            },
            Notice::RetryingLogin(d) => {
                let mut s = "Failure! Sleeping for ".to_owned();
                push_decimal(&mut s, d as u128);
                s.append(" seconds before retrying login.");
                s
            },
            Notice::KeptAlive(d) => {
                let mut s = "Success! Sleeping for ".to_owned();
                push_decimal(&mut s, d as u128);
                s.append(" seconds before redoing keepalive.");
                s
            },
            Notice::TooManyFailures => "Too many failures. Retrying login.".to_owned(),
            Notice::RetryingKeepalive(d, f, m) => {
                let mut s = "Failure! Sleeping for ".to_owned();
                push_decimal(&mut s, d as u128);
                s.append(" seconds before retrying keepalive. Failure count: ");
                push_decimal(&mut s, f as u128);
                s.append("/");
                push_decimal(&mut s, m as u128);
                s
            },
        }
    }
}

/// The session after the calls whose outcomes are `outcomes`, in order.
pub open spec fn run_session(s: Session, p: RetryPolicy, outcomes: Seq<bool>) -> Session
    decreases outcomes.len(),
{
    if outcomes.len() == 0 {
        s
    } else {
        run_session(next_session(s, p, outcomes[0]).0, p, outcomes.drop_first())
    }
}

/// `n` failed calls in a row.
pub open spec fn failures(n: nat) -> Seq<bool> {
    Seq::new(n, |i: int| false)
}

/// The failure count never exceeds the policy's limit: every step keeps it within.
pub proof fn lemma_failure_count_bounded(s: Session, p: RetryPolicy, succeeded: bool)
    requires
        session_wf(s, p),
    ensures
        session_wf(next_session(s, p, succeeded).0, p),
{
}

/// A successful call, login or keepalive, leaves the session keeping alive with
/// no failure counted, and pauses for the keepalive delay.
pub proof fn lemma_success_resets(s: Session, p: RetryPolicy)
    ensures
        next_session(s, p, true).0 == (Session { phase: Phase::KeepingAlive, fail_count: 0 }),
        next_session(s, p, true).2 == Some(p.keepalive_delay),
{
}

/// A failed call pauses for the retry delay, except the keepalive failure that
/// exceeds the limit, after which the session logs in again at once.
pub proof fn lemma_failure_pause(s: Session, p: RetryPolicy)
    requires
        session_wf(s, p),
    ensures
        next_session(s, p, false).2 == (if s.phase == Phase::KeepingAlive && s.fail_count
            == p.max_failures {
            None::<u64>
        } else {
            Some(p.retry_delay)
        }),
{
}

/// While logins fail, the session keeps trying to log in.
pub proof fn lemma_login_retried(p: RetryPolicy, n: nat)
    ensures
        run_session(initial_session(), p, failures(n)) == initial_session(),
    decreases n,
{
    if n > 0 {
        assert(failures(n).drop_first() =~= failures((n - 1) as nat));
        lemma_login_retried(p, (n - 1) as nat);
    }
}

/// Keepalive failures in a row are counted one by one while they stay within
/// the limit.
pub proof fn lemma_failures_counted(p: RetryPolicy, k: nat, n: nat)
    requires
        k + n <= p.max_failures,
    ensures
        run_session(Session { phase: Phase::KeepingAlive, fail_count: k as u32 }, p, failures(n))
            == (Session { phase: Phase::KeepingAlive, fail_count: (k + n) as u32 }),
    decreases n,
{
    if n > 0 {
        assert(failures(n).drop_first() =~= failures((n - 1) as nat));
        lemma_failures_counted(p, k + 1, (n - 1) as nat);
    }
}

/// One keepalive failure more than the limit tolerates, in a row, sends the
/// session back to logging in.
pub proof fn lemma_too_many_failures_relogin(p: RetryPolicy)
    ensures
        run_session(
            Session { phase: Phase::KeepingAlive, fail_count: 0 },
            p,
            failures((p.max_failures + 1) as nat),
        ) == initial_session(),
{
    let n = p.max_failures as nat;
    let all = failures(n + 1);
    lemma_run_split(Session { phase: Phase::KeepingAlive, fail_count: 0 }, p, failures(n), seq![false]);
    assert(failures(n) + seq![false] =~= all);
    lemma_failures_counted(p, 0, n);
    let last = Session { phase: Phase::KeepingAlive, fail_count: p.max_failures };
    assert(run_session(Session { phase: Phase::KeepingAlive, fail_count: 0 }, p, failures(n)) == last);
    assert(seq![false].drop_first() =~= Seq::<bool>::empty());
    assert(next_session(last, p, false).0 == initial_session());
    assert(run_session(last, p, seq![false]) == run_session(initial_session(), p, Seq::<bool>::empty()));
}

/// Running two stretches of outcomes is running their concatenation.
pub proof fn lemma_run_split(s: Session, p: RetryPolicy, a: Seq<bool>, b: Seq<bool>)
    ensures
        run_session(s, p, a + b) == run_session(run_session(s, p, a), p, b),
    decreases a.len(),
{
    if a.len() > 0 {
        assert((a + b).drop_first() =~= a.drop_first() + b);
        lemma_run_split(next_session(s, p, a[0]).0, p, a.drop_first(), b);
    } else {
        assert(a + b =~= b);
    }
}

} // verus!
