use psn_solver::handler::{handle_set_npsso, TokenPair};
use psn_solver::model::PSNInnerInfo;
use psn_solver::pool::{AccessRenewal, CredentialSession, SessionPool};
use psn_solver::startup::pool_builder;

fn session(email: &str) -> CredentialSession {
    CredentialSession {
        email: email.to_owned(),
        online_id: "op".to_owned(),
        region: "hk".to_owned(),
        language: "en".to_owned(),
        npsso: "n".to_owned(),
        access_token: Some("acc".to_owned()),
        refresh_token: Some("ref".to_owned()),
        last_refresh_at: Some(100),
    }
}

fn info(email: &str) -> PSNInnerInfo {
    PSNInnerInfo {
        email: email.to_owned(),
        online_id: None,
        npsso: format!("npsso-{}", email),
        region: None,
        language: None,
    }
}

fn pair(tag: &str) -> TokenPair {
    TokenPair {
        access_token: format!("access-{}", tag),
        refresh_token: format!("refresh-{}", tag),
        refreshed_at: 500,
    }
}

#[test]
fn checkout_fails_while_paused_regardless_of_contents() {
    let mut pool = SessionPool::new();
    pool.add_all(vec![session("a@x"), session("b@x")]);
    pool.pause();
    assert!(pool.checkout().is_none());
    pool.resume();
    let out = pool.checkout().expect("a running, non-empty pool hands a session out");
    assert_eq!(out.email, "a@x");
}

#[test]
fn checkout_fails_on_an_empty_pool() {
    let pool = SessionPool::new();
    assert!(!pool.paused());
    assert!(pool.checkout().is_none());
}

#[test]
fn add_all_then_clear_leaves_pool_empty_and_pause_flag_unchanged() {
    let mut running = SessionPool::new();
    running.add_all(vec![session("a@x")]);
    running.clear();
    assert_eq!(running.len(), 0);
    assert!(!running.paused());

    let mut paused = SessionPool::new();
    paused.pause();
    paused.add_all(vec![session("a@x"), session("b@x")]);
    paused.clear();
    assert_eq!(paused.len(), 0);
    assert!(paused.paused());
}

#[test]
fn paused_pool_still_refreshes_but_checkout_still_fails() {
    let mut pool = SessionPool::new();
    pool.add_all(vec![session("a@x")]);
    pool.pause();

    let ticket = pool.begin_refresh().expect("refresh is unaffected by pause");
    assert_eq!(ticket, "ref");
    pool.apply_refresh(Some(AccessRenewal {
        access_token: "renewed".to_owned(),
        refreshed_at: 900,
    }));
    assert!(pool.checkout().is_none());

    pool.resume();
    let out = pool.checkout().expect("resume re-enables checkout");
    assert_eq!(out.access_token.as_deref(), Some("renewed"));
    assert_eq!(out.last_refresh_at, Some(900));
    assert_eq!(out.email, "a@x");
}

#[test]
fn failed_refresh_exchange_changes_nothing() {
    let mut pool = SessionPool::new();
    pool.add_all(vec![session("a@x")]);
    pool.apply_refresh(None);
    let out = pool.checkout().expect("the session is still there");
    assert_eq!(out.access_token.as_deref(), Some("acc"));
    assert_eq!(out.last_refresh_at, Some(100));

    let mut empty = SessionPool::new();
    empty.apply_refresh(Some(AccessRenewal {
        access_token: "renewed".to_owned(),
        refreshed_at: 900,
    }));
    assert_eq!(empty.len(), 0);
}

#[test]
fn set_npsso_fills_the_pool_with_the_successful_sessions() {
    let mut pool = pool_builder();
    let infos = vec![info("good@x"), info("bad@x")];
    let exchanges = vec![Ok(pair("good")), Err("Failed to login in to PSN".to_owned())];
    let reply = handle_set_npsso(&mut pool, &infos, &exchanges);

    assert_eq!(reply.status, 200);
    assert!(reply.psn_running);
    let failures = reply.failures.expect("the failed exchange is reported");
    assert_eq!(failures.len(), 1);
    assert_eq!(failures[0].email, "bad@x");
    assert_eq!(failures[0].npsso, "npsso-bad@x");
    assert_eq!(failures[0].error, "Failed to login in to PSN");

    assert_eq!(pool.len(), 1);
    assert!(!pool.paused());
    let s = pool.checkout().expect("the pool is running and non-empty");
    assert_eq!(s.email, "good@x");
    assert_eq!(s.online_id, "");
    assert_eq!(s.region, "hk");
    assert_eq!(s.language, "en");
    assert_eq!(s.npsso, "npsso-good@x");
    assert_eq!(s.access_token.as_deref(), Some("access-good"));
    assert_eq!(s.refresh_token.as_deref(), Some("refresh-good"));
    assert_eq!(s.last_refresh_at, Some(500));
}

#[test]
fn set_npsso_with_no_success_leaves_the_pool_untouched() {
    let mut pool = SessionPool::new();
    pool.add_all(vec![session("kept@x")]);
    let infos = vec![info("bad@x")];
    let exchanges = vec![Err("no tokens".to_owned())];
    let reply = handle_set_npsso(&mut pool, &infos, &exchanges);

    assert_eq!(reply.status, 200);
    assert!(!reply.psn_running);
    let failures = reply.failures.expect("the failed exchange is reported");
    assert_eq!(failures.len(), 1);
    assert_eq!(failures[0].email, "bad@x");
    assert_eq!(failures[0].error, "no tokens");
    assert_eq!(pool.len(), 1);
    let s = pool.checkout().expect("old contents stay");
    assert_eq!(s.email, "kept@x");
}

#[test]
fn set_npsso_reports_no_failures_when_every_exchange_succeeds() {
    let mut pool = pool_builder();
    let infos = vec![info("one@x"), info("two@x")];
    let exchanges = vec![Ok(pair("one")), Ok(pair("two"))];
    let reply = handle_set_npsso(&mut pool, &infos, &exchanges);

    assert!(reply.psn_running);
    assert!(reply.failures.is_none());
    assert_eq!(pool.len(), 2);
}
