use psn_solver::acquire::{acquire, run_batch, AcquisitionEvents};
use psn_solver::error::PSNServerError;
use psn_solver::model::{CaptchaResponse, PSNAccount, PSNNpssoResponse};
use psn_solver::solver::{HARVEST_BUDGET, SOLVER_POLL_BUDGET};

fn no_polls() -> Vec<Option<CaptchaResponse>> {
    (0..SOLVER_POLL_BUDGET).map(|_| None).collect()
}

fn no_reads() -> Vec<Option<PSNNpssoResponse>> {
    (0..HARVEST_BUDGET).map(|_| None).collect()
}

fn happy_events(answer: &str, npsso: &str) -> AcquisitionEvents {
    let mut polls = no_polls();
    polls[0] = Some(CaptchaResponse { status: 1, request: answer.to_owned() });
    let mut reads = no_reads();
    reads[0] = Some(PSNNpssoResponse { npsso: npsso.to_owned(), expires_in: 3600 });
    AcquisitionEvents {
        login: Ok("https://account.example/login".to_owned()),
        submit: Ok(CaptchaResponse { status: 1, request: "job-1".to_owned() }),
        solver_polls: polls,
        completion: Ok(()),
        harvest: reads,
    }
}

#[test]
fn acquisition_succeeds_on_the_first_harvested_token() {
    let ev = happy_events("answer", "npsso-win");
    let got = acquire(&ev).expect("the pipeline succeeds on these events");
    assert_eq!(got.npsso, "npsso-win");
    assert_eq!(got.expires_in, 3600);
}

#[test]
fn solver_never_ready_is_a_timeout() {
    let mut ev = happy_events("answer", "npsso-win");
    ev.solver_polls = no_polls();
    match acquire(&ev) {
        Err(PSNServerError::TimeOut) => {},
        _ => panic!("a spent solver-poll budget must be a timeout"),
    }
}

#[test]
fn harvest_never_ready_is_a_timeout_even_though_the_solver_answered() {
    let mut ev = happy_events("answer", "npsso-win");
    ev.harvest = no_reads();
    match acquire(&ev) {
        Err(PSNServerError::TimeOut) => {},
        _ => panic!("a spent harvest budget must be a timeout"),
    }
}

#[test]
fn refused_submission_fails_before_any_poll() {
    let mut ev = happy_events("answer", "npsso-win");
    ev.submit = Ok(CaptchaResponse { status: 0, request: "ERROR_ZERO_BALANCE".to_owned() });
    match acquire(&ev) {
        Err(PSNServerError::Solver(msg)) => {
            assert_eq!(msg, "Failed to obtain request captchaId")
        },
        _ => panic!("a refused submission must be a solver error"),
    }
}

#[test]
fn browser_failure_is_reported_with_its_text() {
    let mut ev = happy_events("answer", "npsso-win");
    ev.login = Err("element #ember19 never appeared".to_owned());
    match acquire(&ev) {
        Err(PSNServerError::Solver(msg)) => {
            assert_eq!(msg, "element #ember19 never appeared")
        },
        _ => panic!("a browser failure must be a solver error"),
    }
}

#[test]
fn completion_hook_failure_is_reported_with_its_text() {
    let mut ev = happy_events("answer", "npsso-win");
    ev.completion = Err("evaluate failed".to_owned());
    match acquire(&ev) {
        Err(PSNServerError::Solver(msg)) => assert_eq!(msg, "evaluate failed"),
        _ => panic!("a completion-hook failure must be a solver error"),
    }
}

#[test]
fn batch_of_two_keeps_order_and_captures_the_timeout() {
    let accounts = vec![
        PSNAccount { email: "a@x".to_owned(), password: "pa".to_owned() },
        PSNAccount { email: "b@x".to_owned(), password: "pb".to_owned() },
    ];
    let mut ev_a = happy_events("answer-a", "X");
    ev_a.solver_polls = no_polls();
    ev_a.solver_polls[1] = Some(CaptchaResponse { status: 1, request: "answer-a".to_owned() });
    let mut ev_b = happy_events("answer-b", "never");
    ev_b.solver_polls = no_polls();
    let events = vec![ev_a, ev_b];

    let results = run_batch(&accounts, &events);
    assert_eq!(results.len(), 2);
    assert_eq!(results[0].email, "a@x");
    assert_eq!(results[0].npsso.as_deref(), Some("X"));
    assert_eq!(results[0].expires_at.as_deref(), Some("3600"));
    assert!(results[0].error.is_none());
    assert_eq!(results[1].email, "b@x");
    assert!(results[1].npsso.is_none());
    assert!(results[1].expires_at.is_none());
    assert_eq!(results[1].error.as_deref(), Some("Request Timeout"));
}

#[test]
fn batch_result_length_equals_account_count() {
    let accounts: Vec<PSNAccount> = (0..4)
        .map(|i| PSNAccount { email: format!("u{}@x", i), password: "p".to_owned() })
        .collect();
    let events: Vec<AcquisitionEvents> =
        (0..4).map(|_| happy_events("ans", "tok")).collect();
    let results = run_batch(&accounts, &events);
    assert_eq!(results.len(), accounts.len());
    for (i, entry) in results.iter().enumerate() {
        assert_eq!(entry.email, format!("u{}@x", i));
        assert_eq!(entry.expires_at.as_deref(), Some("3600"));
    }
}
