use vstd::prelude::*;

use crate::descriptor::{ConnectionDescriptor, ConnectionKey, KeyView};
use crate::error::EasyKafkaError;

verus! {

struct PoolEntry<S> {
    key: ConnectionKey,
    session: S,
}

/// A session handed out by the pool: its identity within the pool, a shared
/// copy of the session, and whether this request built it.
pub struct SessionHandle<S> {
    pub id: usize,
    pub session: S,
    pub created: bool,
}

/// A cache from connection identity to a live administrative session. It
/// builds a session on the first request for a key, hands the same session out
/// on later requests, and never caches a failed construction.
pub struct SessionPool<S> {
    entries: Vec<PoolEntry<S>>,
}

/// Keys pairwise distinct: at most one session per connection identity.
pub open spec fn keys_unique(keys: Seq<KeyView>) -> bool {
    forall|i: int, j: int| 0 <= i < keys.len() && 0 <= j < keys.len() && i != j ==> keys[i] != keys[j]
}

/// The effect of one `acquire` of `key` on the pool's key sequence, given the
/// handle's identity and whether it was built, or the error.
pub open spec fn acquire_spec(
    old: Seq<KeyView>,
    key: KeyView,
    r: Result<(usize, bool), EasyKafkaError>,
    new: Seq<KeyView>,
) -> bool {
    match r {
        Ok((id, created)) => {
            &&& id < new.len()
            &&& new[id as int] == key
            &&& created == !old.contains(key)
            &&& old.contains(key) ==> new == old
            &&& !old.contains(key) ==> new == old.push(key)
        },
        Err(e) => {
            &&& e == EasyKafkaError::ConnectFailed
            &&& !old.contains(key)
            &&& new == old
        },
    }
}

/// Two successive successful acquisitions return the same session identity
/// exactly when their descriptors share a pooling key.
pub proof fn lemma_pool_identity(
    k0: Seq<KeyView>,
    key_a: KeyView,
    id_a: usize,
    created_a: bool,
    k1: Seq<KeyView>,
    key_b: KeyView,
    id_b: usize,
    created_b: bool,
    k2: Seq<KeyView>,
)
    requires
        keys_unique(k0),
        acquire_spec(k0, key_a, Ok((id_a, created_a)), k1),
        acquire_spec(k1, key_b, Ok((id_b, created_b)), k2),
    ensures
        (id_a == id_b) <==> (key_a == key_b),
{
    lemma_acquire_keeps_unique(k0, key_a, Ok((id_a, created_a)), k1);
    lemma_acquire_keeps_unique(k1, key_b, Ok((id_b, created_b)), k2);
    assert(k2[id_a as int] == key_a) by {
        if !k1.contains(key_b) {
            assert(k2[id_a as int] == k1[id_a as int]);
        }
    }
}

/// An acquisition keeps the pool's keys pairwise distinct.
pub proof fn lemma_acquire_keeps_unique(
    old: Seq<KeyView>,
    key: KeyView,
    r: Result<(usize, bool), EasyKafkaError>,
    new: Seq<KeyView>,
)
    requires
        keys_unique(old),
        acquire_spec(old, key, r, new),
    ensures
        keys_unique(new),
        new.len() >= old.len(),
        forall|i: int| 0 <= i < old.len() ==> new[i] == old[i],
{
    if r is Ok && !old.contains(key) {
        assert forall|i: int, j: int|
            0 <= i < new.len() && 0 <= j < new.len() && i != j implies new[i] != new[j] by {
            if i == old.len() {
                assert(old[j] == new[j]);
            } else if j == old.len() {
                assert(old[i] == new[i]);
            }
        }
    }
}

/// Once a key is pooled, acquiring it again builds nothing: the same session
/// comes back and the pool is unchanged.
pub proof fn lemma_single_construction(
    k0: Seq<KeyView>,
    key: KeyView,
    id_a: usize,
    created_a: bool,
    k1: Seq<KeyView>,
    r: Result<(usize, bool), EasyKafkaError>,
    k2: Seq<KeyView>,
)
    requires
        keys_unique(k0),
        acquire_spec(k0, key, Ok((id_a, created_a)), k1),
        acquire_spec(k1, key, r, k2),
    ensures
        r == Ok::<(usize, bool), EasyKafkaError>((id_a, false)),
        k2 == k1,
{
    lemma_acquire_keeps_unique(k0, key, Ok((id_a, created_a)), k1);
    assert(k1.contains(key)) by {
        assert(k1[id_a as int] == key);
    }
    let (id_b, created_b) = r->Ok_0;
    assert(k1[id_b as int] == key);
}

/// A run of acquisitions of one key, each starting from the pool the
/// previous one left: `ks[m]` is the pool's keys before the `m`-th call and
/// `rs[m]` its outcome.
pub open spec fn acquire_run(
    ks: Seq<Seq<KeyView>>,
    key: KeyView,
    rs: Seq<Result<(usize, bool), EasyKafkaError>>,
) -> bool {
    &&& ks.len() == rs.len() + 1
    &&& keys_unique(ks[0])
    &&& forall|m: int| #![trigger rs[m]] 0 <= m < rs.len() ==> acquire_spec(ks[m], key, rs[m], ks[m + 1])
}

proof fn lemma_run_unique(
    ks: Seq<Seq<KeyView>>,
    key: KeyView,
    rs: Seq<Result<(usize, bool), EasyKafkaError>>,
    m: int,
)
    requires
        acquire_run(ks, key, rs),
        0 <= m <= rs.len(),
    ensures
        keys_unique(ks[m]),
    decreases m,
{
    if m > 0 {
        lemma_run_unique(ks, key, rs, m - 1);
        assert(acquire_spec(ks[m - 1], key, rs[m - 1], ks[m]));
        lemma_acquire_keeps_unique(ks[m - 1], key, rs[m - 1], ks[m]);
    }
}

proof fn lemma_run_keeps_session(
    ks: Seq<Seq<KeyView>>,
    key: KeyView,
    rs: Seq<Result<(usize, bool), EasyKafkaError>>,
    i: int,
    k: int,
)
    requires
        acquire_run(ks, key, rs),
        0 <= i < k <= rs.len(),
        rs[i] is Ok,
    ensures
        rs[i]->Ok_0.0 < ks[k].len(),
        ks[k][rs[i]->Ok_0.0 as int] == key,
    decreases k,
{
    assert(acquire_spec(ks[k - 1], key, rs[k - 1], ks[k]));
    if k > i + 1 {
        lemma_run_keeps_session(ks, key, rs, i, k - 1);
        lemma_run_unique(ks, key, rs, k - 1);
        lemma_acquire_keeps_unique(ks[k - 1], key, rs[k - 1], ks[k]);
    }
}

/// Any number of acquisitions of one key, serialized as the pool's lock
/// serializes concurrent callers, build at most one session: every
/// successful one after the first success hands out that same session and
/// builds nothing.
pub proof fn lemma_single_construction_run(
    ks: Seq<Seq<KeyView>>,
    key: KeyView,
    rs: Seq<Result<(usize, bool), EasyKafkaError>>,
)
    requires
        acquire_run(ks, key, rs),
    ensures
        forall|i: int, j: int|
            #![trigger rs[i], rs[j]]
            0 <= i < j < rs.len() && rs[i] is Ok && rs[j] is Ok ==> rs[j]->Ok_0.0 == rs[i]->Ok_0.0
                && !rs[j]->Ok_0.1,
{
    assert forall|i: int, j: int|
        #![trigger rs[i], rs[j]]
        0 <= i < j < rs.len() && rs[i] is Ok && rs[j] is Ok implies rs[j]->Ok_0.0 == rs[i]->Ok_0.0
            && !rs[j]->Ok_0.1 by {
        lemma_run_keeps_session(ks, key, rs, i, j);
        lemma_run_unique(ks, key, rs, j);
        assert(acquire_spec(ks[j], key, rs[j], ks[j + 1]));
        assert(ks[j].contains(key));
        let (id_j, c_j) = rs[j]->Ok_0;
        assert(ks[j + 1] == ks[j]);
        assert(ks[j][id_j as int] == key);
    }
}

/// A failed construction is not cached: the pool is left as it was, and the
/// next successful acquisition of the same key builds a new session.
pub proof fn lemma_failure_not_cached(
    k0: Seq<KeyView>,
    key: KeyView,
    e: EasyKafkaError,
    k1: Seq<KeyView>,
    id: usize,
    created: bool,
    k2: Seq<KeyView>,
)
    requires
        acquire_spec(k0, key, Err(e), k1),
        acquire_spec(k1, key, Ok((id, created)), k2),
    ensures
        e == EasyKafkaError::ConnectFailed,
        k1 == k0,
        created,
        k2 == k0.push(key),
{
}

pub open spec fn handle_outcome<S>(r: Result<SessionHandle<S>, EasyKafkaError>) -> Result<
    (usize, bool),
    EasyKafkaError,
> {
    match r {
        Ok(h) => Ok((h.id, h.created)),
        Err(e) => Err(e),
    }
}

impl<S: Clone> SessionPool<S> {
    /// The connection identities in the pool, in order of construction; a
    /// session's identity is its position here.
    pub closed spec fn keys(&self) -> Seq<KeyView> {
        self.entries@.map_values(|e: PoolEntry<S>| e.key@)
    }

    /// The pooled sessions, in the order of `keys`.
    pub closed spec fn sessions(&self) -> Seq<S> {
        self.entries@.map_values(|e: PoolEntry<S>| e.session)
    }

    pub open spec fn well_formed(&self) -> bool {
        &&& keys_unique(self.keys())
        &&& self.sessions().len() == self.keys().len()
    }

    /// An empty pool.
    pub fn new() -> (r: SessionPool<S>)
        ensures
            r.keys() == Seq::<KeyView>::empty(),
            r.well_formed(),
    {
        let r = SessionPool { entries: Vec::new() };
        assert(r.keys() =~= Seq::<KeyView>::empty());
        r
    }

    /// The number of pooled sessions.
    pub fn len(&self) -> (r: usize)
        ensures
            r == self.keys().len(),
    {
        self.entries.len()
    }

    /// The position of the session pooled under `key`, if any.
    pub fn find(&self, key: &ConnectionKey) -> (r: Option<usize>)
        requires
            self.well_formed(),
        ensures
            match r {
                Some(i) => i < self.keys().len() && self.keys()[i as int] == key@,
                None => !self.keys().contains(key@),
            },
    {
        let mut i: usize = 0;
        while i < self.entries.len()
            invariant
                i <= self.entries.len(),
                forall|j: int| 0 <= j < i ==> self.keys()[j] != key@,
            decreases self.entries.len() - i,
        {
            if self.entries[i].key.same_as(key) {
                return Some(i);
            }
            i += 1;
        }
        proof {
            if self.keys().contains(key@) {
                let j = choose|j: int| 0 <= j < self.keys().len() && self.keys()[j] == key@;
                assert(self.keys()[j] != key@);
            }
        }
        None
    }

    /// Returns the session pooled under the descriptor's key, or builds one
    /// with `connect` and pools it. On a hit `connect` is not called and the
    /// pool is unchanged; a failed construction leaves the pool unchanged and
    /// yields `ConnectFailed`.
    pub fn acquire<F>(&mut self, d: &ConnectionDescriptor, connect: F) -> (r: Result<
        SessionHandle<S>,
        EasyKafkaError,
    >) where F: FnOnce(&ConnectionDescriptor) -> Option<S>
        requires
            old(self).well_formed(),
            connect.requires((d,)),
        ensures
            final(self).well_formed(),
            acquire_spec(old(self).keys(), d@.key(), handle_outcome(r), final(self).keys()),
            final(self).sessions().take(old(self).sessions().len() as int) == old(self).sessions(),
            old(self).keys().contains(d@.key()) ==> final(self).sessions() == old(self).sessions(),
            match r {
                Ok(h) => {
                    &&& cloned(final(self).sessions()[h.id as int], h.session)
                    &&& h.created ==> connect.ensures((d,), Some(final(self).sessions()[h.id as int]))
                },
                Err(_) => connect.ensures((d,), None),
            },
    {
        let key = d.key();
        match self.find(&key) {
            Some(i) => {
                let session = self.entries[i].session.clone();
                assert(self.sessions()[i as int] == self.entries@[i as int].session);
                Ok(SessionHandle { id: i, session, created: false })
            },
            None => {
                match connect(d) {
                    Some(s) => {
                        let id = self.entries.len();
                        let session = s.clone();
                        let ghost old_keys = self.keys();
                        let ghost old_sessions = self.sessions();
                        self.entries.push(PoolEntry { key, session: s });
                        assert(self.keys() =~= old_keys.push(d@.key()));
                        assert(self.sessions().take(old_sessions.len() as int) =~= old_sessions);
                        Ok(SessionHandle { id, session, created: true })
                    },
                    None => Err(EasyKafkaError::ConnectFailed),
                }
            },
        }
    }
}

} // verus!
