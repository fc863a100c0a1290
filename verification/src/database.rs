use vstd::prelude::*;
use vstd::map::*;
use crate::models::{User, UserView};

verus! {

/// In-memory user store: the user records, and the counter whose value serves
/// as the default NFT token id. Records carry pairwise-distinct identifiers;
/// the store is read through its `Map` view from user id to user.
pub struct Database {
    pub users: Vec<User>,
    pub token_counter: u32,
}

impl View for Database {
    type V = Map<u128, UserView>;

    open spec fn view(&self) -> Map<u128, UserView> {
        Map::new(|id: u128| self.contains_id(id), |id: u128| self.users@[self.idx_of(id)]@)
    }
}

impl Database {
    /// Well-formed: no two records share an identifier. Every record is keyed
    /// by its own `user_id`, so a key always matches the record it leads to.
    pub open spec fn wf(self) -> bool {
        forall|i: int, j: int|
            0 <= i < j < self.users@.len() ==> #[trigger] self.users@[i].user_id
                != #[trigger] self.users@[j].user_id
    }

    pub open spec fn contains_id(self, id: u128) -> bool {
        exists|i: int| 0 <= i < self.users@.len() && #[trigger] self.users@[i].user_id == id
    }

    pub open spec fn idx_of(self, id: u128) -> int {
        choose|i: int| 0 <= i < self.users@.len() && #[trigger] self.users@[i].user_id == id
    }

    proof fn lemma_idx_unique(self, i: int)
        requires
            self.wf(),
            0 <= i < self.users@.len(),
        ensures
            self.contains_id(self.users@[i].user_id),
            self.idx_of(self.users@[i].user_id) == i,
    {
        let id = self.users@[i].user_id;
        assert(self.contains_id(id));
        let j = self.idx_of(id);
        assert(0 <= j < self.users@.len() && self.users@[j].user_id == id);
    }

    /// An empty store with the counter at zero.
    pub fn new() -> (db: Database)
        ensures
            db.wf(),
            db@ == Map::<u128, UserView>::empty(),
            db.token_counter == 0,
    {
        let db = Database { users: Vec::new(), token_counter: 0 };
        proof {
            assert(db@ =~= Map::<u128, UserView>::empty());
        }
        db
    }

    fn find_index(&self, user_id: u128) -> (r: Option<usize>)
        ensures
            r matches Some(i) ==> i < self.users@.len() && self.users@[i as int].user_id
                == user_id,
            r is None ==> !self.contains_id(user_id),
    {
        let mut i: usize = 0;
        while i < self.users.len()
            invariant
                i <= self.users@.len(),
                forall|j: int| 0 <= j < i ==> #[trigger] self.users@[j].user_id != user_id,
            decreases self.users@.len() - i,
        {
            if self.users[i].user_id == user_id {
                return Some(i);
            }
            i += 1;
        }
        None
    }

    /// Look a user up and return a snapshot clone, decoupled from the store.
    pub fn get(&self, user_id: u128) -> (r: Option<User>)
        requires
            self.wf(),
        ensures
            r matches Some(u) ==> self@.contains_key(user_id) && u@ == self@[user_id],
            r is None ==> !self@.contains_key(user_id),
    {
        match self.find_index(user_id) {
            Some(i) => {
                let u = self.users[i].clone();
                proof {
                    self.lemma_idx_unique(i as int);
                }
                Some(u)
            },
            None => None,
        }
    }

    /// Unconditional write: overwrites any record already keyed by
    /// `user.user_id`, inserts the record otherwise.
    pub fn insert(&mut self, user: User)
        requires
            old(self).wf(),
        ensures
            final(self).wf(),
            final(self)@ == old(self)@.insert(user.user_id, user@),
            final(self).token_counter == old(self).token_counter,
    {
        let ghost prev = *self;
        let ghost uv = user@;
        let id = user.user_id;
        match self.find_index(id) {
            Some(i) => {
                self.users.set(i, user);
                proof {
                    assert forall|k: int, l: int|
                        0 <= k < l < self.users@.len() implies #[trigger] self.users@[k].user_id
                        != #[trigger] self.users@[l].user_id by {
                        assert(prev.users@[k].user_id != prev.users@[l].user_id);
                        assert(self.users@[k].user_id == prev.users@[k].user_id);
                        assert(self.users@[l].user_id == prev.users@[l].user_id);
                    }
                    self.lemma_map_insert(prev, i as int, id, uv);
                }
            },
            None => {
                self.users.push(user);
                proof {
                    let n = prev.users@.len() as int;
                    assert forall|k: int, l: int|
                        0 <= k < l < self.users@.len() implies #[trigger] self.users@[k].user_id
                        != #[trigger] self.users@[l].user_id by {
                        if l < n {
                            assert(prev.users@[k].user_id != prev.users@[l].user_id);
                        } else {
                            assert(self.users@[l].user_id == id);
                            assert(self.users@[k].user_id == prev.users@[k].user_id);
                            assert(!prev.contains_id(id));
                        }
                    }
                    self.lemma_map_insert(prev, n, id, uv);
                }
            },
        }
    }

    /// After writing a record with key `id` at index `i` (all other records
    /// unchanged), the view is the old view with `id` mapped to that record.
    proof fn lemma_map_insert(self, prev: Database, i: int, id: u128, uv: UserView)
        requires
            prev.wf(),
            self.wf(),
            0 <= i < self.users@.len(),
            self.users@.len() == if i < prev.users@.len() {
                prev.users@.len()
            } else {
                prev.users@.len() + 1
            },
            forall|j: int|
                0 <= j < self.users@.len() && j != i ==> #[trigger] self.users@[j]
                    == prev.users@[j],
            self.users@[i].user_id == id,
            self.users@[i]@ == uv,
            i < prev.users@.len() ==> prev.users@[i].user_id == id,
        ensures
            self@ == prev@.insert(id, uv),
    {
        assert forall|k: u128| #[trigger]
            self@.contains_key(k) <==> prev@.insert(id, uv).contains_key(k) by {
            if k == id {
                self.lemma_idx_unique(i);
            } else {
                if self.contains_id(k) {
                    let j = self.idx_of(k);
                    assert(0 <= j < self.users@.len() && self.users@[j].user_id == k);
                    assert(j != i);
                    assert(prev.users@[j].user_id == k);
                    assert(prev.contains_id(k));
                }
                if prev.contains_id(k) {
                    let j = prev.idx_of(k);
                    assert(0 <= j < prev.users@.len() && prev.users@[j].user_id == k);
                    assert(j != i);
                    assert(self.users@[j].user_id == k);
                    assert(self.contains_id(k));
                }
            }
        }
        assert forall|k: u128|
            self@.contains_key(k) implies self@[k] == prev@.insert(id, uv)[k] by {
            if k == id {
                self.lemma_idx_unique(i);
            } else {
                let j = self.idx_of(k);
                assert(0 <= j < self.users@.len() && self.users@[j].user_id == k);
                assert(j != i);
                self.lemma_idx_unique(j);
                prev.lemma_idx_unique(j);
            }
        }
        assert(self@ =~= prev@.insert(id, uv));
    }

    /// Read-modify-write under one access: fetch the record for `user_id`,
    /// append `chapter_id` to its chapter sequence, write it back, and return
    /// the new snapshot. An absent user leaves the store untouched.
    pub fn append_chapter(&mut self, user_id: u128, chapter_id: String) -> (r: Option<User>)
        requires
            old(self).wf(),
        ensures
            final(self).wf(),
            final(self).token_counter == old(self).token_counter,
            r matches Some(u) ==> old(self)@.contains_key(user_id) && u@ == (UserView {
                user_id: old(self)@[user_id].user_id,
                solana_token: old(self)@[user_id].solana_token,
                chapter_ids: old(self)@[user_id].chapter_ids.push(chapter_id@),
            }) && final(self)@ == old(self)@.insert(user_id, u@),
            r is None ==> !old(self)@.contains_key(user_id) && *final(self) == *old(self),
    {
        let ghost prev = *self;
        match self.find_index(user_id) {
            Some(i) => {
                let mut u = self.users[i].clone();
                proof {
                    self.lemma_idx_unique(i as int);
                }
                let ghost chv = chapter_id@;
                let ghost before = u.chapter_ids.deep_view();
                u.chapter_ids.push(chapter_id);
                proof {
                    assert(u.chapter_ids.deep_view() =~= before.push(chv)) by {
                        assert forall|j: int|
                            0 <= j < u.chapter_ids@.len() implies u.chapter_ids.deep_view()[j]
                            == before.push(chv)[j] by {}
                    }
                }
                let snapshot = u.clone();
                self.insert(u);
                Some(snapshot)
            },
            None => None,
        }
    }

    /// A key always leads to the record bearing it as its own id.
    pub proof fn lemma_key_matches(self, id: u128)
        requires
            self.wf(),
            self@.contains_key(id),
        ensures
            self@[id].user_id == id,
    {
        let j = self.idx_of(id);
        assert(0 <= j < self.users@.len() && self.users@[j].user_id == id);
    }

    /// The default token id for a transfer: the current counter value.
    pub fn next_token_id(&self) -> (t: u32)
        ensures
            t == self.token_counter,
    {
        self.token_counter
    }
}

} // verus!
