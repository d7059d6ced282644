//! The credential-acquisition pipeline: one "email+password to session token"
//! operation, decided over the events one login session observes — the
//! browser's login outcome, the solving service's submission reply, its
//! result polls, the completion hook, and the reads of the harvested-token
//! slot. The surrounding process performs the waits and the transport and
//! hands the observed values in; every decision between them is verified.

use vstd::prelude::*;

use crate::error::{message_spec, PSNServerError};
use crate::model::{CaptchaResponse, Npsso, PSNAccount, PSNNpssoResponse};
use crate::solver::{
    harvest_ready_within, interpret_submit_response, ready_answer, run_harvest, run_solver_poll,
    solver_ready_within, HARVEST_BUDGET, SOLVER_POLL_BUDGET, SUBMIT_FAILURE_MSG,
};
use crate::strutil::{decimal_string_i32, is_decimal_of};

verus! {

/// Everything one acquisition observes, in pipeline order. The solved answer
/// is written into the request intercept's slot and the page's completion
/// hook fired between the solver polls and the harvest reads; `completion`
/// and `harvest` carry what came back from those steps.
pub struct AcquisitionEvents {
    /// The login drive up through submit: the page's address on success, the
    /// failing browser step's text otherwise.
    pub login: Result<String, String>,
    /// The solving service's reply to the submission, or the transport
    /// failure's text.
    pub submit: Result<CaptchaResponse, String>,
    /// One reply of the result endpoint per poll cycle; a transport or parse
    /// failure is "not yet".
    pub solver_polls: Vec<Option<CaptchaResponse>>,
    /// The outcome of firing the page's verification completion hook.
    pub completion: Result<(), String>,
    /// One read of the harvested-token slot per cycle.
    pub harvest: Vec<Option<PSNNpssoResponse>>,
}

impl AcquisitionEvents {
    /// The environment supplied one outcome per poll and read cycle.
    pub open spec fn complete(self) -> bool {
        self.solver_polls@.len() >= SOLVER_POLL_BUDGET && self.harvest@.len() >= HARVEST_BUDGET
    }

    /// The solving service accepted the submission: the login drive and the
    /// submission transport succeeded, and the reply's status is 1.
    pub open spec fn submit_accepted(self) -> bool {
        self.login is Ok && self.submit is Ok && self.submit->Ok_0.status == 1
    }

    /// The whole pipeline succeeds on these events.
    pub open spec fn succeeds(self) -> bool {
        &&& self.submit_accepted()
        &&& solver_ready_within(self.solver_polls@, SOLVER_POLL_BUDGET as int)
        &&& self.completion is Ok
        &&& harvest_ready_within(self.harvest@, HARVEST_BUDGET as int)
    }

    /// The text of the error the pipeline reports when it does not succeed.
    pub open spec fn failure_text(self) -> Seq<char> {
        if self.login is Err {
            "Solver Error: "@ + self.login->Err_0@
        } else if self.submit is Err {
            "Solver Error: "@ + self.submit->Err_0@
        } else if self.submit->Ok_0.status != 1 {
            "Solver Error: "@ + SUBMIT_FAILURE_MSG@
        } else if !solver_ready_within(self.solver_polls@, SOLVER_POLL_BUDGET as int) {
            "Request Timeout"@
        } else if self.completion is Err {
            "Solver Error: "@ + self.completion->Err_0@
        } else {
            "Request Timeout"@
        }
    }
}

/// The harvested payload `t` is the one the first non-empty read within the
/// budget carried.
pub open spec fn first_harvested(
    reads: Seq<Option<PSNNpssoResponse>>,
    budget: int,
    t: PSNNpssoResponse,
) -> bool {
    exists|i: int|
        #![auto]
        0 <= i < budget && reads[i] is Some && t.npsso@ == reads[i]->Some_0.npsso@ && t.expires_in
            == reads[i]->Some_0.expires_in && forall|j: int| 0 <= j < i ==> reads[j] is None
}

/// Acquires one session token over the observed events: any browser or
/// transport failure aborts with its text as a solver error; a submission the
/// solving service refuses is a solver error before any result poll — the
/// result then does not depend on the polls at all; a result-poll budget
/// spent without a ready answer is a timeout; so is a harvest budget spent
/// without a token, even though the solving service answered; otherwise the
/// first harvested payload is the acquired token.
pub fn acquire(ev: &AcquisitionEvents) -> (r: Result<PSNNpssoResponse, PSNServerError>)
    requires
        ev.complete(),
    ensures
        (r is Ok) == ev.succeeds(),
        r is Ok ==> first_harvested(ev.harvest@, HARVEST_BUDGET as int, r->Ok_0),
        r is Err ==> message_spec(r->Err_0) == ev.failure_text(),
        ev.login is Err ==> r is Err && r->Err_0 is Solver && r->Err_0->Solver_0@
            == ev.login->Err_0@,
        ev.login is Ok && ev.submit is Err ==> r is Err && r->Err_0 is Solver
            && r->Err_0->Solver_0@ == ev.submit->Err_0@,
        ev.login is Ok && ev.submit is Ok && ev.submit->Ok_0.status != 1 ==> r is Err
            && r->Err_0 is Solver && r->Err_0->Solver_0@ == SUBMIT_FAILURE_MSG@,
        ev.submit_accepted() && !solver_ready_within(ev.solver_polls@, SOLVER_POLL_BUDGET as int)
            ==> r is Err && r->Err_0 is TimeOut,
        ev.submit_accepted() && solver_ready_within(ev.solver_polls@, SOLVER_POLL_BUDGET as int)
            && ev.completion is Err ==> r is Err && r->Err_0 is Solver && r->Err_0->Solver_0@
            == ev.completion->Err_0@,
        ev.submit_accepted() && solver_ready_within(ev.solver_polls@, SOLVER_POLL_BUDGET as int)
            && ev.completion is Ok && !harvest_ready_within(ev.harvest@, HARVEST_BUDGET as int)
            ==> r is Err && r->Err_0 is TimeOut,
{
    let _page_url = match &ev.login {
        Ok(url) => url,
        Err(m) => { return Err(PSNServerError::Solver(m.clone())) },
    };
    let reply = match &ev.submit {
        Ok(reply) => reply,
        Err(m) => { return Err(PSNServerError::Solver(m.clone())) },
    };
    let _request_id = match interpret_submit_response(reply) {
        Ok(id) => id,
        Err(e) => { return Err(e) },
    };
    let _answer = match run_solver_poll(&ev.solver_polls, SOLVER_POLL_BUDGET) {
        Ok(answer) => answer,
        Err(e) => { return Err(e) },
    };
    match &ev.completion {
        Ok(_) => {},
        Err(m) => { return Err(PSNServerError::Solver(m.clone())) },
    }
    run_harvest(&ev.harvest, HARVEST_BUDGET)
}

/// What one finished batch entry must look like for its account and events:
/// the account's email, and exactly one of the harvested token — with its
/// time to live carried as a decimal numeral in `expires_at` — or the
/// failure's text.
pub open spec fn batch_entry_ok(acc: PSNAccount, ev: AcquisitionEvents, n: Npsso) -> bool {
    &&& n.email@ == acc.email@
    &&& if ev.succeeds() {
        &&& n.error is None
        &&& n.npsso is Some
        &&& n.expires_at is Some
        &&& exists|t: PSNNpssoResponse|
            first_harvested(ev.harvest@, HARVEST_BUDGET as int, t) && n.npsso->Some_0@ == t.npsso@
                && is_decimal_of(n.expires_at->Some_0@, t.expires_in as int)
    } else {
        &&& n.npsso is None
        &&& n.expires_at is None
        &&& n.error is Some
        &&& n.error->Some_0@ == ev.failure_text()
    }
}

/// Acquires a whole batch strictly in submission order, one result per
/// account: a failed account is captured in its own entry and never aborts
/// the rest.
pub fn run_batch(accounts: &Vec<PSNAccount>, events: &Vec<AcquisitionEvents>) -> (r: Vec<Npsso>)
    requires
        events@.len() == accounts@.len(),
        forall|i: int| 0 <= i < events@.len() ==> events@[i].complete(),
    ensures
        r@.len() == accounts@.len(),
        forall|i: int| 0 <= i < r@.len() ==> batch_entry_ok(accounts@[i], events@[i], r@[i]),
{
    let n = accounts.len();
    let mut results: Vec<Npsso> = Vec::new();
    let mut i: usize = 0;
    while i < n
        invariant
            n == accounts@.len(),
            events@.len() == n,
            forall|k: int| 0 <= k < events@.len() ==> events@[k].complete(),
            0 <= i <= n,
            results@.len() == i,
            forall|k: int| 0 <= k < i ==> batch_entry_ok(accounts@[k], events@[k], results@[k]),
        decreases n - i,
    {
        let outcome = acquire(&events[i]);
        let entry = match outcome {
            Ok(token) => {
                let expires_at = decimal_string_i32(token.expires_in);
                Npsso {
                    email: accounts[i].email.clone(),
                    npsso: Some(token.npsso),
                    expires_at: Some(expires_at),
                    error: None,
                }
            },
            Err(e) => Npsso {
                email: accounts[i].email.clone(),
                npsso: None,
                expires_at: None,
                error: Some(e.message()),
            },
        };
        results.push(entry);
        i = i + 1;
    }
    results
}

} // verus!
