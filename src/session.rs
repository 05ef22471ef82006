//! The table of live sessions.

use vstd::prelude::*;

verus! {

/// Name of the cookie that carries the session id.
pub const SESSION_COOKIE: &'static str = "katastr_session";


/// One live session: its id and the second it was created.
#[derive(Clone, Debug)]
pub struct SessionEntry {
    pub id: String,
    pub created_at: u64,
}

/// The process-wide table of sessions, from session id to the second it was created.
///
/// By default an entry stays valid for the life of the process, whatever the cookie's
/// advertised lifetime; `with_max_age` makes expiry an explicit policy instead.
pub struct SessionRegistry {
    entries: Vec<SessionEntry>,
    max_age: Option<u64>,
    model: Ghost<Map<Seq<char>, u64>>,
}

impl View for SessionRegistry {
    type V = Map<Seq<char>, u64>;

    closed spec fn view(&self) -> Map<Seq<char>, u64> {
        self.model@
    }
}

/// Whether a session created at `created` is still valid at `now` under `max_age`.
pub open spec fn fresh(created: u64, now: u64, max_age: Option<u64>) -> bool {
    match max_age {
        None => true,
        Some(m) => now <= created || now - created <= m,
    }
}

impl SessionRegistry {
    /// The entries list each session of the model once, with its creation time.
    pub closed spec fn wf(&self) -> bool {
        &&& forall|i: int|
            0 <= i < self.entries@.len() ==> self.model@.contains_key(
                #[trigger] self.entries@[i].id@,
            ) && self.model@[self.entries@[i].id@] == self.entries@[i].created_at
        &&& forall|k: Seq<char>|
            #[trigger] self.model@.contains_key(k) ==> exists|i: int|
                0 <= i < self.entries@.len() && (#[trigger] self.entries@[i]).id@ == k
        &&& forall|i: int, j: int|
            0 <= i < j < self.entries@.len() ==> (#[trigger] self.entries@[i]).id@
                != (#[trigger] self.entries@[j]).id@
    }

    /// The expiry policy: `None` keeps sessions valid until the process ends.
    pub closed spec fn max_age_spec(&self) -> Option<u64> {
        self.max_age
    }

    /// An empty registry whose sessions never expire.
    pub fn new() -> (r: SessionRegistry)
        ensures
            r.wf(),
            r@ == Map::<Seq<char>, u64>::empty(),
            r.max_age_spec() is None,
    {
        SessionRegistry { entries: Vec::new(), max_age: None, model: Ghost(Map::empty()) }
    }

    /// An empty registry whose sessions expire `max_age` seconds after creation.
    pub fn with_max_age(max_age: u64) -> (r: SessionRegistry)
        ensures
            r.wf(),
            r@ == Map::<Seq<char>, u64>::empty(),
            r.max_age_spec() == Some(max_age),
    {
        SessionRegistry { entries: Vec::new(), max_age: Some(max_age), model: Ghost(Map::empty()) }
    }

    /// Number of sessions held.
    pub fn len(&self) -> (r: usize)
        requires
            self.wf(),
        ensures
            r == self@.len(),
    {
        proof {
            self.lemma_len();
        }
        self.entries.len()
    }

    proof fn lemma_len(&self)
        requires
            self.wf(),
        ensures
            self@.len() == self.entries@.len(),
            self@.dom().finite(),
    {
        let ids = Seq::new(self.entries@.len(), |i: int| self.entries@[i].id@);
        assert forall|k: Seq<char>| self@.dom().contains(k) <==> ids.to_set().contains(k) by {
            if self@.contains_key(k) {
                let i = choose|i: int|
                    0 <= i < self.entries@.len() && (#[trigger] self.entries@[i]).id@ == k;
                assert(ids[i] == k);
            }
            if ids.contains(k) {
                let i = choose|i: int| 0 <= i < ids.len() && ids[i] == k;
                assert(self.entries@[i].id@ == k);
            }
        }
        assert(self@.dom() =~= ids.to_set());
        assert forall|i: int, j: int| 0 <= i < j < ids.len() implies ids[i] != ids[j] by {
            assert(self.entries@[i].id@ != self.entries@[j].id@);
        }
        assert(ids.no_duplicates());
        ids.unique_seq_to_set();
    }

    fn position(&self, id: &str) -> (r: Option<usize>)
        requires
            self.wf(),
        ensures
            match r {
                Some(i) => i < self.entries@.len() && self.entries@[i as int].id@ == id@,
                None => !self@.contains_key(id@),
            },
    {
        let key = String::from_str(id);
        let n = self.entries.len();
        let mut i: usize = 0;
        while i < n
            invariant
                n == self.entries@.len(),
                i <= n,
                key@ == id@,
                forall|j: int| 0 <= j < i ==> self.entries@[j].id@ != id@,
            decreases n - i,
        {
            if self.entries[i].id == key {
                return Some(i);
            }
            i = i + 1;
        }
        None
    }

    /// Records a session created at `now`; an existing entry of that id is replaced.
    pub fn create(&mut self, id: String, now: u64)
        requires
            old(self).wf(),
        ensures
            final(self).wf(),
            final(self)@ == old(self)@.insert(id@, now),
            final(self).max_age_spec() == old(self).max_age_spec(),
    {
        let ghost key = id@;
        match self.position(id.as_str()) {
            Some(i) => {
                self.entries.set(i, SessionEntry { id, created_at: now });
                proof {
                    self.model@ = self.model@.insert(key, now);
                }
                assert forall|k: Seq<char>| #[trigger] self.model@.contains_key(k) implies exists|
                    j: int,
                | 0 <= j < self.entries@.len() && (#[trigger] self.entries@[j]).id@ == k by {
                    if k != key {
                        let j = choose|j: int|
                            0 <= j < old(self).entries@.len() && (#[trigger] old(
                                self,
                            ).entries@[j]).id@ == k;
                        assert(self.entries@[j].id@ == k);
                    } else {
                        assert(self.entries@[i as int].id@ == k);
                    }
                }
            },
            None => {
                self.entries.push(SessionEntry { id, created_at: now });
                proof {
                    self.model@ = self.model@.insert(key, now);
                }
                assert forall|k: Seq<char>| #[trigger] self.model@.contains_key(k) implies exists|
                    j: int,
                | 0 <= j < self.entries@.len() && (#[trigger] self.entries@[j]).id@ == k by {
                    if k != key {
                        let j = choose|j: int|
                            0 <= j < old(self).entries@.len() && (#[trigger] old(
                                self,
                            ).entries@[j]).id@ == k;
                        assert(self.entries@[j].id@ == k);
                    } else {
                        assert(self.entries@[self.entries@.len() - 1].id@ == k);
                    }
                }
            },
        }
    }

    /// The second at which session `id` was created, if it is held.
    pub fn created_at(&self, id: &str) -> (r: Option<u64>)
        requires
            self.wf(),
        ensures
            match r {
                Some(t) => self@.contains_key(id@) && self@[id@] == t,
                None => !self@.contains_key(id@),
            },
    {
        match self.position(id) {
            Some(i) => Some(self.entries[i].created_at),
            None => None,
        }
    }

    /// Whether `id` names a session that is valid at `now` under the registry's policy.
    pub fn is_valid(&self, id: &str, now: u64) -> (r: bool)
        requires
            self.wf(),
        ensures
            r == (self@.contains_key(id@) && fresh(self@[id@], now, self.max_age_spec())),
    {
        match self.created_at(id) {
            None => false,
            Some(t) => match self.max_age {
                None => true,
                Some(m) => now <= t || now - t <= m,
            },
        }
    }
}

} // verus!
