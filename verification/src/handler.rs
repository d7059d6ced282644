//! The service's handlers: opening and completing batch jobs, polling a job
//! id, dispatching administrative queries, and filling the session pool from
//! a batch of verified sessions.

use vstd::prelude::*;

use crate::model::{
    AdminQuery, Npsso, PSNInnerFailure, PSNInnerInfo, PSNInnerResponse, SharedMap,
    SolverIdResponse, SolverResponse,
};
use crate::pool::{CredentialSession, SessionPool};

verus! {

/// The status a poll of `id` reports against registry state `m`: an untracked
/// id is not found, a tracked id with no results yet is not ready, and a
/// tracked id with results is ready.
pub open spec fn poll_status(m: SharedMap, id: Seq<char>) -> u16 {
    if !m.spec_contains(id) {
        404
    } else if m.spec_get(id).len() == 0 {
        201
    } else {
        200
    }
}

/// What one poll of `id` must reply and leave behind, given the registry
/// state `m0` it found: only a ready poll carries the results, and only a
/// ready poll removes the job.
pub open spec fn poll_reply_ok(m0: SharedMap, m1: SharedMap, id: Seq<char>, r: SolverIdResponse) -> bool {
    &&& r.status == poll_status(m0, id)
    &&& r.status == 404 ==> r.npsso is None && r.error is Some && r.error->Some_0@ == "Not Found"@
        && m1 == m0
    &&& r.status == 201 ==> r.npsso is None && r.error is Some && r.error->Some_0@ == "Not Ready"@
        && m1 == m0
    &&& r.status == 200 ==> r.npsso is Some && r.npsso->Some_0@ == m0.spec_get(id) && r.error
        is None && !m1.spec_contains(id)
    &&& forall|k: Seq<char>| k != id ==> m1.spec_contains(k) == m0.spec_contains(k)
    &&& forall|k: Seq<char>| k != id && m0.spec_contains(k) ==> m1.spec_get(k) == m0.spec_get(k)
}

/// Polls one job id: not found for an untracked id, not ready while the
/// batch is in flight, and the full result list — removing the job — once it
/// has finished.
pub fn handle_solver_id(map: &mut SharedMap, solver_id: &str) -> (r: SolverIdResponse)
    requires
        old(map).wf(),
    ensures
        final(map).wf(),
        poll_reply_ok(*old(map), *final(map), solver_id@, r),
{
    if map.contains(solver_id) {
        if map.is_ready(solver_id) {
            match map.get(solver_id) {
                Some(results) => SolverIdResponse {
                    status: 200,
                    npsso: Some(results),
                    error: None,
                },
                None => {
                    proof {
                        assert(false);
                    }
                    SolverIdResponse { status: 200, npsso: None, error: None }
                },
            }
        } else {
            SolverIdResponse {
                status: 201,
                npsso: None,
                error: Some(String::from_str("Not Ready")),
            }
        }
    } else {
        SolverIdResponse { status: 404, npsso: None, error: Some(String::from_str("Not Found")) }
    }
}

/// At-most-once delivery: the registry does not track an id before its job is
/// submitted, and no longer tracks it after the poll that carried the results
/// away, and any untracked id polls as "not found".
pub proof fn lemma_at_most_once_delivery(m: SharedMap, id: Seq<char>)
    requires
        !m.spec_contains(id),
    ensures
        poll_status(m, id) == 404,
{
}

/// Relies on uuid::Uuid::new_v4 and its hyphenated `Display` form: a random
/// version-4 id rendered as 36 characters. Nothing is assumed about which id
/// comes back.
#[verifier::external_body]
fn fresh_job_id() -> (r: String)
    ensures
        r@.len() == 36,
{
    uuid::Uuid::new_v4().to_string()
}

/// Opens a batch job: issues a caller-opaque id, marks the job in flight by
/// tracking an empty result list under it, and returns the reply the caller
/// receives immediately, while the batch still runs.
pub fn open_job(map: &mut SharedMap) -> (r: SolverResponse)
    requires
        old(map).wf(),
    ensures
        final(map).wf(),
        r.status == 200,
        r.solver_id@.len() == 36,
        final(map).spec_contains(r.solver_id@),
        final(map).spec_get(r.solver_id@).len() == 0,
        poll_status(*final(map), r.solver_id@) == 201,
        forall|k: Seq<char>|
            k != r.solver_id@ ==> final(map).spec_contains(k) == old(map).spec_contains(k),
        forall|k: Seq<char>|
            k != r.solver_id@ && old(map).spec_contains(k) ==> final(map).spec_get(k) == old(map).spec_get(k),
{
    let id = fresh_job_id();
    let reply = SolverResponse { status: 200, solver_id: id.clone() };
    map.add(id, Vec::new());
    reply
}

/// Publishes a finished batch in one update: the job's in-flight list is
/// replaced by the full result list, one entry per account in submission
/// order, and the job polls as ready from here on.
pub fn complete_job(map: &mut SharedMap, solver_id: String, results: Vec<Npsso>)
    requires
        old(map).wf(),
    ensures
        final(map).wf(),
        final(map).spec_contains(solver_id@),
        final(map).spec_get(solver_id@) == results@,
        results@.len() > 0 ==> poll_status(*final(map), solver_id@) == 200,
        forall|k: Seq<char>|
            k != solver_id@ ==> final(map).spec_contains(k) == old(map).spec_contains(k),
        forall|k: Seq<char>|
            k != solver_id@ && old(map).spec_contains(k) ==> final(map).spec_get(k) == old(map).spec_get(k),
{
    map.add(solver_id, results);
}

/// What an administrative query replies with: a poll reply for a job lookup,
/// a bare status for the service gates.
pub enum AdminOutcome {
    Poll(SolverIdResponse),
    Plain(u16),
}

/// Dispatches one administrative query: a job lookup polls the registry, the
/// service gates flip the pool's pause flag and reply 200.
pub fn handle_admin_query(map: &mut SharedMap, pool: &mut SessionPool, query: AdminQuery) -> (r:
    AdminOutcome)
    requires
        old(map).wf(),
    ensures
        final(map).wf(),
        match query {
            AdminQuery::SolverId { solver_id } => r is Poll && poll_reply_ok(
                *old(map),
                *final(map),
                solver_id@,
                r->Poll_0,
            ) && *final(pool) == *old(pool),
            AdminQuery::StartService => r is Plain && r->Plain_0 == 200 && !final(pool).spec_paused() && final(pool).spec_sessions() == old(pool).spec_sessions() && final(pool).spec_capacity() == old(pool).spec_capacity() && *final(map) == *old(map),
            AdminQuery::PauseService => r is Plain && r->Plain_0 == 200 && final(pool).spec_paused() && final(pool).spec_sessions() == old(pool).spec_sessions() && final(pool).spec_capacity() == old(pool).spec_capacity() && *final(map) == *old(map),
        },
{
    match query {
        AdminQuery::SolverId { solver_id } => {
            let reply = handle_solver_id(map, solver_id.as_str());
            AdminOutcome::Poll(reply)
        },
        AdminQuery::StartService => {
            pool.resume();
            AdminOutcome::Plain(200)
        },
        AdminQuery::PauseService => {
            pool.pause();
            AdminOutcome::Plain(200)
        },
    }
}

/// The access and refresh material one successful token exchange minted for
/// one session, and when it was minted.
pub struct TokenPair {
    pub access_token: String,
    pub refresh_token: String,
    pub refreshed_at: u64,
}

/// The session built for `info` and the exchange's material: the account
/// identity with the service's defaults filled in, and the minted tokens.
pub open spec fn session_matches(s: CredentialSession, info: PSNInnerInfo, pair: TokenPair) -> bool {
    &&& s.email@ == info.email@
    &&& s.online_id@ == match info.online_id {
        Some(o) => o@,
        None => Seq::<char>::empty(),
    }
    &&& s.region@ == match info.region {
        Some(x) => x@,
        None => "hk"@,
    }
    &&& s.language@ == match info.language {
        Some(x) => x@,
        None => "en"@,
    }
    &&& s.npsso@ == info.npsso@
    &&& s.access_token is Some && s.access_token->Some_0@ == pair.access_token@
    &&& s.refresh_token is Some && s.refresh_token->Some_0@ == pair.refresh_token@
    &&& s.last_refresh_at == Some(pair.refreshed_at)
}

/// The failure entry recorded for `info` and the exchange's error text.
pub open spec fn failure_matches(f: PSNInnerFailure, info: PSNInnerInfo, msg: Seq<char>) -> bool {
    f.email@ == info.email@ && f.npsso@ == info.npsso@ && f.error@ == msg
}

/// `out` holds one session per successful exchange, in order.
pub open spec fn sessions_match(
    infos: Seq<PSNInnerInfo>,
    ex: Seq<Result<TokenPair, String>>,
    out: Seq<CredentialSession>,
) -> bool
    decreases infos.len(),
{
    if infos.len() == 0 {
        out.len() == 0
    } else {
        let k = infos.len() - 1;
        match ex[k] {
            Ok(pair) => out.len() > 0 && session_matches(out.last(), infos[k], pair)
                && sessions_match(infos.take(k), ex.take(k), out.drop_last()),
            Err(_) => sessions_match(infos.take(k), ex.take(k), out),
        }
    }
}

/// `fails` holds one failure entry per failed exchange, in order.
pub open spec fn failures_match(
    infos: Seq<PSNInnerInfo>,
    ex: Seq<Result<TokenPair, String>>,
    fails: Seq<PSNInnerFailure>,
) -> bool
    decreases infos.len(),
{
    if infos.len() == 0 {
        fails.len() == 0
    } else {
        let k = infos.len() - 1;
        match ex[k] {
            Err(msg) => fails.len() > 0 && failure_matches(fails.last(), infos[k], msg@)
                && failures_match(infos.take(k), ex.take(k), fails.drop_last()),
            Ok(_) => failures_match(infos.take(k), ex.take(k), fails),
        }
    }
}

/// Some exchange succeeded.
pub open spec fn any_ok(ex: Seq<Result<TokenPair, String>>) -> bool {
    exists|i: int| 0 <= i < ex.len() && ex[i] is Ok
}

/// Some exchange failed.
pub open spec fn any_err(ex: Seq<Result<TokenPair, String>>) -> bool {
    exists|i: int| 0 <= i < ex.len() && ex[i] is Err
}

/// The matched session list is non-empty exactly when some exchange
/// succeeded.
proof fn lemma_sessions_len(
    infos: Seq<PSNInnerInfo>,
    ex: Seq<Result<TokenPair, String>>,
    out: Seq<CredentialSession>,
)
    requires
        ex.len() == infos.len(),
        sessions_match(infos, ex, out),
    ensures
        (out.len() > 0) == any_ok(ex),
    decreases infos.len(),
{
    if infos.len() == 0 {
        assert(!any_ok(ex));
    } else {
        let k = infos.len() - 1;
        if ex[k] is Ok {
            assert(any_ok(ex));
        } else {
            lemma_sessions_len(infos.take(k), ex.take(k), out);
            if any_ok(ex) {
                let i = choose|i: int| 0 <= i < ex.len() && ex[i] is Ok;
                assert(ex.take(k)[i] == ex[i]);
                assert(any_ok(ex.take(k)));
            }
            if any_ok(ex.take(k)) {
                let i = choose|i: int| 0 <= i < ex.take(k).len() && ex.take(k)[i] is Ok;
                assert(ex[i] is Ok);
                assert(any_ok(ex));
            }
        }
    }
}

/// The matched failure list is non-empty exactly when some exchange failed.
proof fn lemma_failures_len(
    infos: Seq<PSNInnerInfo>,
    ex: Seq<Result<TokenPair, String>>,
    fails: Seq<PSNInnerFailure>,
)
    requires
        ex.len() == infos.len(),
        failures_match(infos, ex, fails),
    ensures
        (fails.len() > 0) == any_err(ex),
    decreases infos.len(),
{
    if infos.len() == 0 {
        assert(!any_err(ex));
    } else {
        let k = infos.len() - 1;
        if ex[k] is Err {
            assert(any_err(ex));
        } else {
            lemma_failures_len(infos.take(k), ex.take(k), fails);
            if any_err(ex) {
                let i = choose|i: int| 0 <= i < ex.len() && ex[i] is Err;
                assert(ex.take(k)[i] == ex[i]);
                assert(any_err(ex.take(k)));
            }
            if any_err(ex.take(k)) {
                let i = choose|i: int| 0 <= i < ex.take(k).len() && ex.take(k)[i] is Err;
                assert(ex[i] is Err);
                assert(any_err(ex));
            }
        }
    }
}

/// Builds the pooled session for one verified account: missing identity
/// fields get the service's defaults (no online id, region `hk`, language
/// `en`), and the exchange's material is installed as minted.
fn build_session(info: &PSNInnerInfo, pair: &TokenPair) -> (s: CredentialSession)
    ensures
        session_matches(s, *info, *pair),
{
    let online_id = match &info.online_id {
        Some(o) => o.clone(),
        None => String::new(),
    };
    let region = match &info.region {
        Some(x) => x.clone(),
        None => String::from_str("hk"),
    };
    let language = match &info.language {
        Some(x) => x.clone(),
        None => String::from_str("en"),
    };
    CredentialSession {
        email: info.email.clone(),
        online_id,
        region,
        language,
        npsso: info.npsso.clone(),
        access_token: Some(pair.access_token.clone()),
        refresh_token: Some(pair.refresh_token.clone()),
        last_refresh_at: Some(pair.refreshed_at),
    }
}

/// Fills the pool from a batch of verified sessions, given the outcome of
/// each session's token exchange: the successful sessions replace the pool's
/// contents — it is paused around the swap, its capacity becomes their count,
/// and it resumes — while a batch with no success leaves the pool untouched.
/// The reply reports whether the pool is running, and carries one failure
/// entry per session whose exchange failed — with its email, npsso and the
/// exchange's error text — so that no per-account failure is silently lost;
/// the field is absent when every exchange succeeded.
pub fn handle_set_npsso(
    pool: &mut SessionPool,
    infos: &Vec<PSNInnerInfo>,
    exchanges: &Vec<Result<TokenPair, String>>,
) -> (r: PSNInnerResponse)
    requires
        exchanges@.len() == infos@.len(),
    ensures
        r.status == 200,
        r.psn_running == any_ok(exchanges@),
        r.failures is Some <==> any_err(exchanges@),
        r.failures is Some ==> failures_match(infos@, exchanges@, r.failures->Some_0@),
        any_ok(exchanges@) ==> sessions_match(infos@, exchanges@, final(pool).spec_sessions())
            && !final(pool).spec_paused() && final(pool).spec_capacity() == final(pool).spec_sessions().len(),
        !any_ok(exchanges@) ==> *final(pool) == *old(pool),
{
    let n = infos.len();
    let mut inner: Vec<CredentialSession> = Vec::new();
    let mut failures: Vec<PSNInnerFailure> = Vec::new();
    let mut i: usize = 0;
    while i < n
        invariant
            n == infos@.len(),
            exchanges@.len() == n,
            0 <= i <= n,
            sessions_match(infos@.take(i as int), exchanges@.take(i as int), inner@),
            failures_match(infos@.take(i as int), exchanges@.take(i as int), failures@),
        decreases n - i,
    {
        let ghost infos_pre = infos@.take(i as int);
        let ghost ex_pre = exchanges@.take(i as int);
        let ghost inner_pre = inner@;
        let ghost failures_pre = failures@;
        match &exchanges[i] {
            Ok(pair) => {
                let session = build_session(&infos[i], pair);
                inner.push(session);
            },
            Err(msg) => {
                failures.push(
                    PSNInnerFailure {
                        email: infos[i].email.clone(),
                        npsso: infos[i].npsso.clone(),
                        error: msg.clone(),
                    },
                );
            },
        }
        i = i + 1;
        proof {
            let infos_now = infos@.take(i as int);
            let ex_now = exchanges@.take(i as int);
            assert(infos_now.take(i - 1) =~= infos_pre);
            assert(ex_now.take(i - 1) =~= ex_pre);
            assert(infos_now[i - 1] == infos@[i - 1]);
            assert(ex_now[i - 1] == exchanges@[i - 1]);
            if exchanges@[i - 1] is Ok {
                assert(inner@.drop_last() =~= inner_pre);
                assert(failures@ == failures_pre);
                assert(sessions_match(infos_now, ex_now, inner@));
                assert(failures_match(infos_now, ex_now, failures@));
            } else {
                assert(failures@.drop_last() =~= failures_pre);
                assert(inner@ == inner_pre);
                assert(sessions_match(infos_now, ex_now, inner@));
                assert(failures_match(infos_now, ex_now, failures@));
            }
        }
    }
    proof {
        assert(infos@.take(n as int) =~= infos@);
        assert(exchanges@.take(n as int) =~= exchanges@);
        lemma_sessions_len(infos@, exchanges@, inner@);
        lemma_failures_len(infos@, exchanges@, failures@);
    }
    let psn_running = if inner.len() > 0 {
        let ghost innerv = inner@;
        pool.pause();
        pool.clear();
        pool.add_all(inner);
        pool.resume();
        proof {
            assert(pool.spec_sessions() =~= innerv);
        }
        true
    } else {
        false
    };
    let failures_opt = if failures.len() > 0 {
        Some(failures)
    } else {
        None
    };
    PSNInnerResponse { status: 200, psn_running, failures: failures_opt }
}

} // verus!
