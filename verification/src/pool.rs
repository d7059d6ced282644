//! The session pool: currently-valid authenticated sessions with a
//! pause/resume gate over checkout, bulk add and clear, and the in-place
//! refresh the background scheduler performs on one entry per tick.

use vstd::prelude::*;

verus! {

/// One pooled authenticated session: the account identity, its access and
/// refresh material, and when the material was last refreshed.
pub struct CredentialSession {
    pub email: String,
    pub online_id: String,
    pub region: String,
    pub language: String,
    pub npsso: String,
    pub access_token: Option<String>,
    pub refresh_token: Option<String>,
    pub last_refresh_at: Option<u64>,
}

/// Renewed access material from one refresh-token exchange.
pub struct AccessRenewal {
    pub access_token: String,
    pub refreshed_at: u64,
}

/// What a checkout of the pool would hand out: nothing while the pool is
/// paused or empty, its first session otherwise.
pub open spec fn checkout_spec(sessions: Seq<CredentialSession>, paused: bool) -> Option<
    CredentialSession,
> {
    if paused || sessions.len() == 0 {
        None
    } else {
        Some(sessions[0])
    }
}

/// Whether a scheduler tick finds a refreshable session: the pause gate does
/// not apply, only emptiness and a missing refresh token do.
pub open spec fn refreshable_spec(sessions: Seq<CredentialSession>) -> bool {
    sessions.len() > 0 && sessions[0].refresh_token is Some
}

/// The capacity-bounded collection of valid sessions, plus the `paused` flag
/// gating whether downstream consumers may draw from it.
pub struct SessionPool {
    sessions: Vec<CredentialSession>,
    capacity: usize,
    paused: bool,
}

impl SessionPool {
    /// The pooled sessions, in order.
    pub closed spec fn spec_sessions(self) -> Seq<CredentialSession> {
        self.sessions@
    }

    /// Whether checkout is gated off.
    pub closed spec fn spec_paused(self) -> bool {
        self.paused
    }

    /// The maximum size set at the last bulk add.
    pub closed spec fn spec_capacity(self) -> nat {
        self.capacity as nat
    }

    /// An empty, running pool with no capacity yet.
    pub fn new() -> (r: SessionPool)
        ensures
            r.spec_sessions().len() == 0,
            !r.spec_paused(),
            r.spec_capacity() == 0,
    {
        SessionPool { sessions: Vec::new(), capacity: 0, paused: false }
    }

    /// Gates checkout off. Idempotent: a flag, not a counted lock.
    pub fn pause(&mut self)
        ensures
            final(self).spec_paused(),
            final(self).spec_sessions() == old(self).spec_sessions(),
            final(self).spec_capacity() == old(self).spec_capacity(),
    {
        self.paused = true;
    }

    /// Gates checkout back on. Idempotent: a flag, not a counted lock.
    pub fn resume(&mut self)
        ensures
            !final(self).spec_paused(),
            final(self).spec_sessions() == old(self).spec_sessions(),
            final(self).spec_capacity() == old(self).spec_capacity(),
    {
        self.paused = false;
    }

    /// Whether checkout is currently gated off.
    pub fn paused(&self) -> (r: bool)
        ensures
            r == self.spec_paused(),
    {
        self.paused
    }

    /// How many sessions the pool currently holds.
    pub fn len(&self) -> (r: usize)
        ensures
            r == self.spec_sessions().len(),
    {
        self.sessions.len()
    }

    /// Empties the pool without touching the pause flag or the capacity.
    pub fn clear(&mut self)
        ensures
            final(self).spec_sessions().len() == 0,
            final(self).spec_paused() == old(self).spec_paused(),
            final(self).spec_capacity() == old(self).spec_capacity(),
    {
        self.sessions.clear();
    }

    /// Appends the given sessions and replaces the capacity bound with their
    /// count, so a bulk add onto an emptied pool fills it exactly to its new
    /// capacity.
    pub fn add_all(&mut self, sessions: Vec<CredentialSession>)
        ensures
            final(self).spec_sessions() == old(self).spec_sessions() + sessions@,
            final(self).spec_capacity() == sessions@.len(),
            final(self).spec_paused() == old(self).spec_paused(),
    {
        self.capacity = sessions.len();
        let mut incoming = sessions;
        self.sessions.append(&mut incoming);
    }

    /// Hands out a session for downstream use: nothing while the pool is
    /// paused, whatever its contents, and nothing from an empty pool.
    pub fn checkout(&self) -> (r: Option<&CredentialSession>)
        ensures
            match r {
                Some(s) => checkout_spec(self.spec_sessions(), self.spec_paused()) == Some(*s),
                None => checkout_spec(self.spec_sessions(), self.spec_paused()) is None,
            },
    {
        if self.paused || self.sessions.len() == 0 {
            None
        } else {
            Some(&self.sessions[0])
        }
    }

    /// The scheduler's view of the entry it will refresh this tick: the first
    /// session's refresh token, available even while the pool is paused.
    pub fn begin_refresh(&self) -> (r: Option<String>)
        ensures
            r is Some <==> refreshable_spec(self.spec_sessions()),
            r is Some ==> r->Some_0@ == self.spec_sessions()[0].refresh_token->Some_0@,
    {
        if self.sessions.len() == 0 {
            return None;
        }
        match &self.sessions[0].refresh_token {
            Some(token) => Some(token.clone()),
            None => None,
        }
    }

    /// Writes renewed access material back into the refreshed entry in place;
    /// a failed exchange (no renewal) changes nothing, so one bad tick never
    /// stops the scheduler.
    pub fn apply_refresh(&mut self, renewal: Option<AccessRenewal>)
        ensures
            final(self).spec_paused() == old(self).spec_paused(),
            final(self).spec_capacity() == old(self).spec_capacity(),
            final(self).spec_sessions().len() == old(self).spec_sessions().len(),
            renewal is None || old(self).spec_sessions().len() == 0 ==> final(self).spec_sessions()
                == old(self).spec_sessions(),
            renewal is Some && old(self).spec_sessions().len() > 0 ==> {
                let s0 = old(self).spec_sessions()[0];
                let s1 = final(self).spec_sessions()[0];
                &&& s1.access_token == Some(renewal->Some_0.access_token)
                &&& s1.last_refresh_at == Some(renewal->Some_0.refreshed_at)
                &&& s1.email == s0.email
                &&& s1.online_id == s0.online_id
                &&& s1.region == s0.region
                &&& s1.language == s0.language
                &&& s1.npsso == s0.npsso
                &&& s1.refresh_token == s0.refresh_token
                &&& forall|i: int|
                    1 <= i < old(self).spec_sessions().len() ==> final(self).spec_sessions()[i]
                        == old(self).spec_sessions()[i]
            },
    {
        let renewal = match renewal {
            Some(renewal) => renewal,
            None => { return },
        };
        if self.sessions.len() == 0 {
            return;
        }
        let mut first = self.sessions.remove(0);
        first.access_token = Some(renewal.access_token);
        first.last_refresh_at = Some(renewal.refreshed_at);
        self.sessions.insert(0, first);
        proof {
            assert(forall|i: int|
                1 <= i < old(self).spec_sessions().len() ==> self.sessions@[i] == old(
                    self,
                ).spec_sessions()[i]);
        }
    }
}

/// Checkout is gated by the pause flag alone, never by the pool's contents:
/// a paused pool hands nothing out however full it is, and a running,
/// non-empty pool always hands its first session out.
pub proof fn lemma_checkout_gating(sessions: Seq<CredentialSession>, paused: bool)
    ensures
        paused ==> checkout_spec(sessions, paused) is None,
        !paused && sessions.len() > 0 ==> checkout_spec(sessions, paused) == Some(sessions[0]),
{
}

/// `resume` touches only the pause flag, so a pool that was non-empty hands
/// a session out immediately afterwards.
pub proof fn lemma_resume_enables_checkout(before: SessionPool, after: SessionPool)
    requires
        after.spec_sessions() == before.spec_sessions(),
        !after.spec_paused(),
        before.spec_sessions().len() > 0,
    ensures
        checkout_spec(after.spec_sessions(), after.spec_paused()) == Some(
            before.spec_sessions()[0],
        ),
{
}

/// A bulk add followed immediately by a clear leaves the pool empty and the
/// pause flag exactly where it was before the add.
pub proof fn lemma_add_all_then_clear(p0: SessionPool, p1: SessionPool, p2: SessionPool, added: Seq<
    CredentialSession,
>)
    requires
        p1.spec_sessions() == p0.spec_sessions() + added,
        p1.spec_paused() == p0.spec_paused(),
        p2.spec_sessions().len() == 0,
        p2.spec_paused() == p1.spec_paused(),
    ensures
        p2.spec_sessions().len() == 0,
        p2.spec_paused() == p0.spec_paused(),
{
}

/// The pause gate does not reach the scheduler: a paused pool still offers
/// its first entry for refresh whenever one is refreshable, while checkout
/// keeps failing.
pub proof fn lemma_pause_gates_checkout_not_refresh(p: SessionPool)
    requires
        p.spec_paused(),
        refreshable_spec(p.spec_sessions()),
    ensures
        checkout_spec(p.spec_sessions(), p.spec_paused()) is None,
{
}

} // verus!
