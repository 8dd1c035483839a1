use openxgauthenticator::config::OldConfig;
use openxgauthenticator::session::{Notice, Phase, RetryPolicy, Session};

fn policy(max: u32) -> RetryPolicy {
    RetryPolicy { keepalive_delay: 90, retry_delay: 5, max_failures: max }
}

#[test]
fn policies_from_config() {
    let c = OldConfig::default();
    assert_eq!(RetryPolicy::standalone(&c), policy(3));
    assert_eq!(RetryPolicy::cli(&c), policy(2));
}

#[test]
fn login_success_starts_keepalive() {
    let mut s = Session::new();
    assert_eq!(s.phase, Phase::LoggingIn);
    let step = s.record(&policy(3), true);
    assert_eq!(step.notices, vec![Notice::LoggedIn, Notice::KeepaliveStartsIn(90)]);
    assert_eq!(step.pause, Some(90));
    assert_eq!(s, Session { phase: Phase::KeepingAlive, fail_count: 0 });
}

#[test]
fn login_failure_retries_login() {
    let mut s = Session::new();
    for _ in 0..10 {
        let step = s.record(&policy(3), false);
        assert_eq!(step.notices, vec![Notice::RetryingLogin(5)]);
        assert_eq!(step.pause, Some(5));
        assert_eq!(s, Session::new());
    }
}

#[test]
fn keepalive_failures_then_relogin() {
    for max in [2u32, 3] {
        let p = policy(max);
        let mut s = Session { phase: Phase::KeepingAlive, fail_count: 0 };
        for k in 1..=max {
            let step = s.record(&p, false);
            assert_eq!(step.notices, vec![Notice::RetryingKeepalive(5, k, max)]);
            assert_eq!(step.pause, Some(5));
            assert_eq!(s, Session { phase: Phase::KeepingAlive, fail_count: k });
        }
        let step = s.record(&p, false);
        assert_eq!(step.notices, vec![Notice::TooManyFailures]);
        assert_eq!(step.pause, None);
        assert_eq!(s, Session::new());
    }
}

#[test]
fn keepalive_success_resets_count() {
    let mut s = Session { phase: Phase::KeepingAlive, fail_count: 2 };
    let step = s.record(&policy(3), true);
    assert_eq!(step.notices, vec![Notice::KeptAlive(90)]);
    assert_eq!(step.pause, Some(90));
    assert_eq!(s.fail_count, 0);
}

#[test]
fn notice_texts() {
    assert_eq!(Notice::LoggedIn.text(), "Success logging in!");
    assert_eq!(Notice::KeepaliveStartsIn(90).text(), "Beginning keepalive loop in 90 secs");
    assert_eq!(Notice::RetryingLogin(5).text(), "Failure! Sleeping for 5 seconds before retrying login.");
    assert_eq!(Notice::KeptAlive(90).text(), "Success! Sleeping for 90 seconds before redoing keepalive.");
    assert_eq!(Notice::TooManyFailures.text(), "Too many failures. Retrying login.");
    assert_eq!(
        Notice::RetryingKeepalive(5, 2, 3).text(),
        "Failure! Sleeping for 5 seconds before retrying keepalive. Failure count: 2/3"
    );
}
