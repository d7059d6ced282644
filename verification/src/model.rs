//! Data model of the service: credential inputs, per-account acquisition
//! results, the shared configuration, and the job registry that tracks one
//! batch-acquisition job per caller-issued id.

use vstd::prelude::*;

verus! {

/// One credential pair submitted for acquisition.
pub struct PSNAccount {
    pub email: String,
    pub password: String,
}

/// A batch of accounts submitted for acquisition.
pub struct SolverRequest {
    pub accounts: Vec<PSNAccount>,
}

/// The per-account outcome of one acquisition: exactly one of `npsso` and
/// `error` is set once the job has finished.
pub struct Npsso {
    pub email: String,
    pub npsso: Option<String>,
    pub expires_at: Option<String>,
    pub error: Option<String>,
}

/// The reply to a batch submission: the fresh job id.
pub struct SolverResponse {
    pub status: u16,
    pub solver_id: String,
}

/// The reply to a poll of a job id.
pub struct SolverIdResponse {
    pub status: u16,
    pub npsso: Option<Vec<Npsso>>,
    pub error: Option<String>,
}

/// An administrative query.
pub enum AdminQuery {
    SolverId { solver_id: String },
    StartService,
    PauseService,
}

/// A query against the downstream account service.
pub enum PSNQuery {
    Profile { online_id: String },
    Titles { online_id: String, offset: String },
    TrophySet { online_id: String, np_communication_id: String },
    Store { language: String, region: String, age: String, name: String },
}

/// One verified session handed to the pool by an operator.
pub struct PSNInnerInfo {
    pub email: String,
    pub online_id: Option<String>,
    pub npsso: String,
    pub region: Option<String>,
    pub language: Option<String>,
}

/// A batch of verified sessions handed to the pool.
pub struct PSNInnerRequest {
    pub psn_inners: Vec<PSNInnerInfo>,
}

/// One session whose token exchange failed while filling the pool.
pub struct PSNInnerFailure {
    pub email: String,
    pub npsso: String,
    pub error: String,
}

/// The reply to a pool fill: whether the pool is running, and the batch's
/// failure list in the shape the service puts on the wire.
pub struct PSNInnerResponse {
    pub status: u16,
    pub psn_running: bool,
    pub failures: Option<Vec<PSNInnerFailure>>,
}

/// A reply from the solving service: a status flag plus either a job id or
/// an answer token in `request`.
pub struct CaptchaResponse {
    pub status: u16,
    pub request: String,
}

/// The session-token payload harvested from the authentication endpoint.
pub struct PSNNpssoResponse {
    pub npsso: String,
    pub expires_in: i32,
}

/// The configuration shared by every component: the administrative bearer
/// token and the solving-service api key.
pub struct GlobalState {
    pub admin_token: String,
    pub api_key: String,
}

/// The owning handle around [`GlobalState`].
pub struct SharedGlobalState(pub GlobalState);

impl SharedGlobalState {
    /// Stores the administrative token in bearer form and the api key as
    /// given.
    pub fn new(admin_token: String, api_key: String) -> (r: SharedGlobalState)
        ensures
            r.0.admin_token@ == "Bearer "@ + admin_token@,
            r.0.api_key == api_key,
    {
        SharedGlobalState(
            GlobalState {
                admin_token: String::from_str("Bearer ").concat(admin_token.as_str()),
                api_key,
            },
        )
    }

    /// The administrative token in bearer form.
    pub fn admin_token(&self) -> (r: String)
        ensures
            r@ == self.0.admin_token@,
    {
        self.0.admin_token.clone()
    }

    /// The solving-service api key.
    pub fn api_key(&self) -> (r: &str)
        ensures
            r@ == self.0.api_key@,
    {
        self.0.api_key.as_str()
    }
}

/// There is an entry with key `k` among `es`.
pub open spec fn has_key(es: Seq<(String, Vec<Npsso>)>, k: Seq<char>) -> bool {
    exists|i: int| 0 <= i < es.len() && es[i].0@ == k
}

/// The index of the entry with key `k`.
pub open spec fn key_index(es: Seq<(String, Vec<Npsso>)>, k: Seq<char>) -> int {
    choose|i: int| 0 <= i < es.len() && es[i].0@ == k
}

/// The value stored under key `k`.
pub open spec fn val_at(es: Seq<(String, Vec<Npsso>)>, k: Seq<char>) -> Seq<Npsso> {
    es[key_index(es, k)].1@
}

/// No two entries share a key.
pub open spec fn uniq_keys(es: Seq<(String, Vec<Npsso>)>) -> bool {
    forall|i: int, j: int| 0 <= i < j < es.len() ==> es[i].0@ != es[j].0@
}

/// The job registry: one result list per job id. A job id maps to the empty
/// list while its batch is in flight and to the full result list once the
/// batch has finished; a successful read removes the entry.
pub struct SharedMap {
    entries: Vec<(String, Vec<Npsso>)>,
}

impl SharedMap {
    /// The registry's keys are unique, so each lookup is unambiguous.
    pub closed spec fn wf(self) -> bool {
        uniq_keys(self.entries@)
    }

    /// A job with this id is tracked.
    pub closed spec fn spec_contains(self, k: Seq<char>) -> bool {
        has_key(self.entries@, k)
    }

    /// The result list tracked under this id.
    pub closed spec fn spec_get(self, k: Seq<char>) -> Seq<Npsso> {
        val_at(self.entries@, k)
    }

    /// An empty registry.
    pub fn new() -> (r: SharedMap)
        ensures
            r.wf(),
            forall|k: Seq<char>| !r.spec_contains(k),
    {
        SharedMap { entries: Vec::new() }
    }

    /// The index of the entry with the given key, if one is tracked.
    fn find_index(&self, key: &str) -> (r: Option<usize>)
        ensures
            match r {
                Some(i) => i < self.entries@.len() && self.entries@[i as int].0@ == key@,
                None => !self.spec_contains(key@),
            },
    {
        let key_owned: String = key.to_owned();
        let n = self.entries.len();
        let mut i: usize = 0;
        while i < n
            invariant
                key_owned@ == key@,
                0 <= i <= n,
                n == self.entries@.len(),
                forall|j: int| 0 <= j < i ==> self.entries@[j].0@ != key@,
            decreases n - i,
        {
            if self.entries[i].0 == key_owned {
                return Some(i);
            }
            i = i + 1;
        }
        None
    }

    /// Tracks `value` under `key`, replacing any list already tracked there.
    pub fn add(&mut self, key: String, value: Vec<Npsso>)
        requires
            old(self).wf(),
        ensures
            final(self).wf(),
            final(self).spec_contains(key@),
            final(self).spec_get(key@) == value@,
            forall|k: Seq<char>|
                k != key@ ==> final(self).spec_contains(k) == old(self).spec_contains(k),
            forall|k: Seq<char>|
                k != key@ && old(self).spec_contains(k) ==> final(self).spec_get(k)
                    == old(self).spec_get(k),
    {
        match self.find_index(key.as_str()) {
            Some(i) => {
                let ghost before = self.entries@;
                proof {
                    lemma_key_index_unique(before, key@, i as int);
                    lemma_remove_entry(before, i as int, key@);
                }
                let _ = self.entries.remove(i);
                let ghost mid = self.entries@;
                self.entries.push((key, value));
                proof {
                    lemma_push_entry(mid, self.entries@.last());
                }
            },
            None => {
                let ghost mid = self.entries@;
                self.entries.push((key, value));
                proof {
                    lemma_push_entry(mid, self.entries@.last());
                }
            },
        }
    }

    /// Whether a job with this id is tracked.
    pub fn contains(&self, key: &str) -> (r: bool)
        ensures
            r == self.spec_contains(key@),
    {
        self.find_index(key).is_some()
    }

    /// Whether the tracked job has finished: its result list is non-empty.
    pub fn is_ready(&self, key: &str) -> (r: bool)
        requires
            self.wf(),
            self.spec_contains(key@),
        ensures
            r == (self.spec_get(key@).len() > 0),
    {
        match self.find_index(key) {
            Some(i) => {
                proof {
                    lemma_key_index_unique(self.entries@, key@, i as int);
                }
                self.entries[i].1.len() > 0
            },
            None => false,
        }
    }

    /// Takes the result list tracked under this id, removing the entry, so
    /// that a second read of the same id finds nothing.
    pub fn get(&mut self, key: &str) -> (r: Option<Vec<Npsso>>)
        requires
            old(self).wf(),
        ensures
            final(self).wf(),
            old(self).spec_contains(key@) ==> r is Some && r->Some_0@ == old(self).spec_get(key@)
                && !final(self).spec_contains(key@),
            !old(self).spec_contains(key@) ==> r is None && *final(self) == *old(self),
            forall|k: Seq<char>|
                k != key@ ==> final(self).spec_contains(k) == old(self).spec_contains(k),
            forall|k: Seq<char>|
                k != key@ && old(self).spec_contains(k) ==> final(self).spec_get(k)
                    == old(self).spec_get(k),
    {
        match self.find_index(key) {
            Some(i) => {
                proof {
                    lemma_key_index_unique(self.entries@, key@, i as int);
                    lemma_remove_entry(self.entries@, i as int, key@);
                }
                let entry = self.entries.remove(i);
                Some(entry.1)
            },
            None => None,
        }
    }
}

/// With unique keys, the entry found at `i` is the entry every lookup of its
/// key resolves to.
proof fn lemma_key_index_unique(es: Seq<(String, Vec<Npsso>)>, k: Seq<char>, i: int)
    requires
        uniq_keys(es),
        0 <= i < es.len(),
        es[i].0@ == k,
    ensures
        key_index(es, k) == i,
        val_at(es, k) == es[i].1@,
{
    assert(has_key(es, k));
    let j = key_index(es, k);
    assert(0 <= j < es.len() && es[j].0@ == k);
    if i < j {
        assert(es[i].0@ != es[j].0@);
    } else if j < i {
        assert(es[j].0@ != es[i].0@);
    }
}

/// Removing the entry at `i` removes exactly its key: every other key keeps
/// its value, and uniqueness is preserved.
proof fn lemma_remove_entry(es: Seq<(String, Vec<Npsso>)>, i: int, k: Seq<char>)
    requires
        uniq_keys(es),
        0 <= i < es.len(),
        es[i].0@ == k,
    ensures
        uniq_keys(es.remove(i)),
        !has_key(es.remove(i), k),
        forall|k2: Seq<char>| k2 != k ==> has_key(es.remove(i), k2) == has_key(es, k2),
        forall|k2: Seq<char>| k2 != k && has_key(es, k2) ==> val_at(es.remove(i), k2) == val_at(
            es,
            k2,
        ),
{
    let rest = es.remove(i);
    assert(forall|j: int| 0 <= j < rest.len() ==> rest[j] == (if j < i {
        es[j]
    } else {
        es[j + 1]
    }));
    assert forall|k2: Seq<char>| k2 != k && has_key(es, k2) implies has_key(rest, k2) && val_at(
        rest,
        k2,
    ) == val_at(es, k2) by {
        let j = choose|j: int| 0 <= j < es.len() && es[j].0@ == k2;
        lemma_key_index_unique(es, k2, j);
        let j2 = if j < i {
            j
        } else {
            j - 1
        };
        assert(rest[j2] == es[j]);
        assert(has_key(rest, k2));
        let m = choose|m: int| 0 <= m < rest.len() && rest[m].0@ == k2;
        let m_orig = if m < i {
            m
        } else {
            m + 1
        };
        assert(es[m_orig].0@ == k2);
        lemma_key_index_unique(es, k2, m_orig);
        assert(m_orig == j);
        assert(val_at(rest, k2) == rest[key_index(rest, k2)].1@);
        assert(rest[key_index(rest, k2)] == es[j]);
    }
    assert forall|k2: Seq<char>| has_key(rest, k2) implies has_key(es, k2) by {
        let m = choose|m: int| 0 <= m < rest.len() && rest[m].0@ == k2;
        let m_orig = if m < i {
            m
        } else {
            m + 1
        };
        assert(es[m_orig].0@ == k2);
    }
    assert forall|m: int| 0 <= m < rest.len() implies rest[m].0@ != k by {
        let m_orig = if m < i {
            m
        } else {
            m + 1
        };
        assert(rest[m] == es[m_orig]);
        if m_orig != i {
            assert(es[m_orig].0@ != es[i].0@);
        }
    }
    assert forall|a: int, b: int| 0 <= a < b < rest.len() implies rest[a].0@ != rest[b].0@ by {
        let a0 = if a < i {
            a
        } else {
            a + 1
        };
        let b0 = if b < i {
            b
        } else {
            b + 1
        };
        assert(rest[a] == es[a0]);
        assert(rest[b] == es[b0]);
        assert(a0 < b0);
    }
}

/// Pushing an entry with a fresh key adds exactly that key.
proof fn lemma_push_entry(es: Seq<(String, Vec<Npsso>)>, e: (String, Vec<Npsso>))
    requires
        uniq_keys(es),
        !has_key(es, e.0@),
    ensures
        uniq_keys(es.push(e)),
        has_key(es.push(e), e.0@),
        val_at(es.push(e), e.0@) == e.1@,
        forall|k2: Seq<char>| k2 != e.0@ ==> has_key(es.push(e), k2) == has_key(es, k2),
        forall|k2: Seq<char>| k2 != e.0@ && has_key(es, k2) ==> val_at(es.push(e), k2) == val_at(
            es,
            k2,
        ),
{
    let ex = es.push(e);
    assert(ex[es.len() as int] == e);
    assert(forall|j: int| 0 <= j < es.len() ==> ex[j] == es[j]);
    assert forall|i: int, j: int| 0 <= i < j < ex.len() implies ex[i].0@ != ex[j].0@ by {
        if j < es.len() {
        } else {
            assert(ex[j] == e);
            assert(ex[i] == es[i]);
            if ex[i].0@ == e.0@ {
                assert(has_key(es, e.0@));
            }
        }
    }
    lemma_key_index_unique(ex, e.0@, es.len() as int);
    assert forall|k2: Seq<char>| k2 != e.0@ && has_key(es, k2) implies has_key(ex, k2) && val_at(
        ex,
        k2,
    ) == val_at(es, k2) by {
        let j = choose|j: int| 0 <= j < es.len() && es[j].0@ == k2;
        lemma_key_index_unique(es, k2, j);
        assert(ex[j] == es[j]);
        lemma_key_index_unique(ex, k2, j);
    }
    assert forall|k2: Seq<char>| k2 != e.0@ && has_key(ex, k2) implies has_key(es, k2) by {
        let m = choose|m: int| 0 <= m < ex.len() && ex[m].0@ == k2;
        assert(m < es.len());
        assert(es[m].0@ == k2);
    }
}

} // verus!
