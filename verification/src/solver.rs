//! The solving-service protocol: what a submission carries, how its reply is
//! read, how the result endpoint is polled, and the bounded retry discipline
//! that turns an exhausted budget into a timeout instead of a hang.

use vstd::prelude::*;

use crate::error::PSNServerError;
use crate::model::{CaptchaResponse, PSNNpssoResponse};

verus! {

/// The solving service's intake endpoint.
pub const TWO_CAP_REQ_URL: &'static str = "https://2captcha.com/in.php";

/// The solving service's result endpoint.
pub const TWO_CAP_RES_URL: &'static str = "https://2captcha.com/res.php";

/// The site key of the CAPTCHA widget on the login page.
pub const SITE_KEY: &'static str = "6Le-UyUUAAAAAIqgW-LsIp5Rn95m_0V0kt_q0Dl5";

/// The text of the error reported when the solving service refuses a
/// submission.
pub const SUBMIT_FAILURE_MSG: &'static str = "Failed to obtain request captchaId";

/// Number of result polls before an acquisition gives up on the solving
/// service.
pub const SOLVER_POLL_BUDGET: u32 = 30;

/// Seconds waited before the first result poll: solving services reject
/// premature polls.
pub const SOLVER_POLL_GRACE_SECS: u64 = 25;

/// Seconds between result polls.
pub const SOLVER_POLL_INTERVAL_SECS: u64 = 3;

/// Number of reads of the harvested-token slot before an acquisition gives
/// up on the login page.
pub const HARVEST_BUDGET: u32 = 10;

/// Seconds between reads of the harvested-token slot.
pub const HARVEST_INTERVAL_SECS: u64 = 2;

/// The form parameters of a CAPTCHA-solving submission: the api key, the
/// method, the site key, the invisible and json flags, and the page to solve.
pub fn build_submit_params(api_key: &str, page_url: &str) -> (r: Vec<(String, String)>)
    ensures
        r@.len() == 6,
        r@[0].0@ == "key"@ && r@[0].1@ == api_key@,
        r@[1].0@ == "method"@ && r@[1].1@ == "userrecaptcha"@,
        r@[2].0@ == "googlekey"@ && r@[2].1@ == SITE_KEY@,
        r@[3].0@ == "invisible"@ && r@[3].1@ == "1"@,
        r@[4].0@ == "json"@ && r@[4].1@ == "1"@,
        r@[5].0@ == "pageurl"@ && r@[5].1@ == page_url@,
{
    let mut params: Vec<(String, String)> = Vec::new();
    params.push((String::from_str("key"), api_key.to_owned()));
    params.push((String::from_str("method"), String::from_str("userrecaptcha")));
    params.push((String::from_str("googlekey"), String::from_str(SITE_KEY)));
    params.push((String::from_str("invisible"), String::from_str("1")));
    params.push((String::from_str("json"), String::from_str("1")));
    params.push((String::from_str("pageurl"), page_url.to_owned()));
    params
}

/// Reads the reply to a submission: status 1 carries the solving job's id,
/// any other status is a solver failure.
pub fn interpret_submit_response(res: &CaptchaResponse) -> (r: Result<String, PSNServerError>)
    ensures
        res.status == 1 ==> r is Ok && r->Ok_0@ == res.request@,
        res.status != 1 ==> r is Err && r->Err_0 is Solver && r->Err_0->Solver_0@
            == SUBMIT_FAILURE_MSG@,
{
    if res.status == 1 {
        Ok(res.request.clone())
    } else {
        Err(PSNServerError::Solver(String::from_str(SUBMIT_FAILURE_MSG)))
    }
}

/// The answer a result poll carries, if it is ready: a missing or malformed
/// reply and a reply whose status is not 1 are both "not yet".
pub open spec fn ready_answer(res: Option<CaptchaResponse>) -> Option<String> {
    match res {
        Some(c) => if c.status == 1 {
            Some(c.request)
        } else {
            None
        },
        None => None,
    }
}

/// Reads one reply of the result endpoint, as [`ready_answer`] describes.
pub fn interpret_poll_response(res: &Option<CaptchaResponse>) -> (r: Option<String>)
    ensures
        match ready_answer(*res) {
            Some(a) => r is Some && r->Some_0@ == a@,
            None => r is None,
        },
{
    match res {
        Some(c) => if c.status == 1 {
            Some(c.request.clone())
        } else {
            None
        },
        None => None,
    }
}

/// The result endpoint's polling address for one solving job.
pub fn build_poll_url(api_key: &str, request_id: &str) -> (r: String)
    ensures
        r@ == TWO_CAP_RES_URL@ + "?key="@ + api_key@ + "&action=get&id="@ + request_id@
            + "&json=1"@,
{
    let mut url = String::from_str(TWO_CAP_RES_URL);
    url.append("?key=");
    url.append(api_key);
    url.append("&action=get&id=");
    url.append(request_id);
    url.append("&json=1");
    url
}

/// The hard retry ceiling every polling loop carries: `attempts` not-ready
/// outcomes have been seen, out of a budget of `budget`. Exceeding the budget
/// is the loops' only exit besides success, so an unresponsive service gives
/// a timeout, never a hang.
pub struct BoundedPoll {
    pub attempts: u32,
    pub budget: u32,
}

impl BoundedPoll {
    /// A fresh ceiling: no attempt spent yet.
    pub fn new(budget: u32) -> (r: BoundedPoll)
        ensures
            r.attempts == 0,
            r.budget == budget,
    {
        BoundedPoll { attempts: 0, budget }
    }

    /// The retry budget is spent: the loop must stop with a timeout.
    pub fn exhausted(&self) -> (r: bool)
        ensures
            r == (self.attempts >= self.budget),
    {
        self.attempts >= self.budget
    }

    /// Records one not-ready outcome.
    pub fn record_miss(&mut self)
        requires
            old(self).attempts < old(self).budget,
        ensures
            final(self).attempts == old(self).attempts + 1,
            final(self).budget == old(self).budget,
    {
        self.attempts = self.attempts + 1;
    }
}

/// Some poll among the first `budget` carries a ready answer.
pub open spec fn solver_ready_within(polls: Seq<Option<CaptchaResponse>>, budget: int) -> bool {
    exists|i: int| 0 <= i < budget && i < polls.len() && ready_answer(polls[i]) is Some
}

/// Runs the result-poll loop over the replies the service gives, one per poll
/// cycle: the first ready answer within the budget is returned; a spent
/// budget is a timeout.
pub fn run_solver_poll(polls: &Vec<Option<CaptchaResponse>>, budget: u32) -> (r: Result<
    String,
    PSNServerError,
>)
    requires
        polls@.len() >= budget,
    ensures
        r is Err ==> r->Err_0 is TimeOut,
        (r is Err) <==> !solver_ready_within(polls@, budget as int),
        r is Ok ==> exists|i: int|
            #![auto]
            0 <= i < budget && ready_answer(polls@[i]) is Some && r->Ok_0@ == ready_answer(
                polls@[i],
            )->Some_0@ && forall|j: int| 0 <= j < i ==> ready_answer(polls@[j]) is None,
{
    let mut ceiling = BoundedPoll::new(budget);
    loop
        invariant
            polls@.len() >= budget,
            ceiling.budget == budget,
            ceiling.attempts <= budget,
            forall|j: int| 0 <= j < ceiling.attempts ==> ready_answer(polls@[j]) is None,
        decreases budget - ceiling.attempts,
    {
        if ceiling.exhausted() {
            assert(!solver_ready_within(polls@, budget as int));
            return Err(PSNServerError::TimeOut);
        }
        let i = ceiling.attempts as usize;
        match interpret_poll_response(&polls[i]) {
            Some(answer) => {
                assert(solver_ready_within(polls@, budget as int));
                return Ok(answer);
            },
            None => {
                ceiling.record_miss();
            },
        }
    }
}

/// Some read among the first `budget` finds a harvested token.
pub open spec fn harvest_ready_within(reads: Seq<Option<PSNNpssoResponse>>, budget: int) -> bool {
    exists|i: int| 0 <= i < budget && i < reads.len() && reads[i] is Some
}

/// Runs the token-harvest loop over the reads of the acquisition's slot, one
/// per cycle: the first token found within the budget is returned; a spent
/// budget is a timeout, even though the solving service itself answered.
pub fn run_harvest(reads: &Vec<Option<PSNNpssoResponse>>, budget: u32) -> (r: Result<
    PSNNpssoResponse,
    PSNServerError,
>)
    requires
        reads@.len() >= budget,
    ensures
        r is Err ==> r->Err_0 is TimeOut,
        (r is Err) <==> !harvest_ready_within(reads@, budget as int),
        r is Ok ==> exists|i: int|
            #![auto]
            0 <= i < budget && reads@[i] is Some && r->Ok_0.npsso@ == reads@[i]->Some_0.npsso@
                && r->Ok_0.expires_in == reads@[i]->Some_0.expires_in && forall|j: int|
                0 <= j < i ==> reads@[j] is None,
{
    let mut ceiling = BoundedPoll::new(budget);
    loop
        invariant
            reads@.len() >= budget,
            ceiling.budget == budget,
            ceiling.attempts <= budget,
            forall|j: int| 0 <= j < ceiling.attempts ==> reads@[j] is None,
        decreases budget - ceiling.attempts,
    {
        if ceiling.exhausted() {
            assert(!harvest_ready_within(reads@, budget as int));
            return Err(PSNServerError::TimeOut);
        }
        let i = ceiling.attempts as usize;
        match &reads[i] {
            Some(token) => {
                assert(harvest_ready_within(reads@, budget as int));
                return Ok(
                    PSNNpssoResponse { npsso: token.npsso.clone(), expires_in: token.expires_in },
                );
            },
            None => {
                ceiling.record_miss();
            },
        }
    }
}

} // verus!
