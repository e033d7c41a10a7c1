//! Process-wide application state shared by the request handlers.
use vstd::prelude::*;

verus! {

/// A snapshot of the shared state: the request count and the set of users
/// that signed in.
pub struct StateView {
    pub request_count: nat,
    pub active_users: Set<Seq<char>>,
}

/// Counters and sets that all request handlers update under one lock.
#[derive(Debug, Clone, Default)]
pub struct AppState {
    pub request_count: u64,
    /// The usernames that signed in, each held once.
    pub active_users: Vec<String>,
}

impl AppState {
    /// The usernames held, as character sequences.
    pub open spec fn users_seq(&self) -> Seq<Seq<char>> {
        self.active_users@.map_values(|s: String| s@)
    }

    pub open spec fn view(&self) -> StateView {
        StateView { request_count: self.request_count as nat, active_users: self.users_seq().to_set() }
    }

    /// No username is held twice.
    pub open spec fn wf(&self) -> bool {
        self.users_seq().no_duplicates()
    }

    /// A state with no requests counted and no active users.
    pub fn new() -> (r: Self)
        ensures
            r.wf(),
            r.request_count == 0,
            r.active_users@.len() == 0,
    {
        AppState { request_count: 0, active_users: Vec::new() }
    }

    /// Counts one more request; the count never decreases and stops at the
    /// largest value it can hold.
    pub fn increment_request_count(&mut self)
        ensures
            final(self).request_count == if old(self).request_count == u64::MAX {
                u64::MAX
            } else {
                (old(self).request_count + 1) as u64
            },
            final(self).active_users == old(self).active_users,
    {
        self.request_count = self.request_count.saturating_add(1);
    }

    /// Whether `username` is among the active users.
    pub fn is_active(&self, username: &String) -> (r: bool)
        ensures
            r == self.users_seq().contains(username@),
    {
        let mut i: usize = 0;
        while i < self.active_users.len()
            invariant
                i <= self.active_users@.len(),
                forall|j: int| 0 <= j < i ==> self.active_users@[j]@ != username@,
            decreases self.active_users@.len() - i,
        {
            if self.active_users[i] == *username {
                assert(self.users_seq()[i as int] == username@);
                return true;
            }
            i = i + 1;
        }
        proof {
            if self.users_seq().contains(username@) {
                let k = choose|k: int| 0 <= k < self.users_seq().len() && self.users_seq()[k] == username@;
                assert(self.active_users@[k]@ == username@);
            }
        }
        false
    }

    /// Adds `username` to the active users.
    pub fn mark_active(&mut self, username: &String)
        requires
            old(self).wf(),
        ensures
            final(self).wf(),
            final(self).request_count == old(self).request_count,
            final(self).view().active_users == old(self).view().active_users.insert(username@),
    {
        if !self.is_active(username) {
            let ghost before = self.users_seq();
            self.active_users.push(username.clone());
            proof {
                assert(self.users_seq() =~= before.push(username@));
                before.lemma_push_to_set_commute(username@);
            }
        } else {
            proof {
                assert(self.view().active_users =~= self.view().active_users.insert(username@));
            }
        }
    }

    /// The request count and the active users, as they are now.
    pub fn snapshot(&self) -> (r: (u64, Vec<String>))
        ensures
            r.0 == self.request_count,
            r.1@ == self.active_users@,
    {
        let mut users: Vec<String> = Vec::new();
        let mut i: usize = 0;
        while i < self.active_users.len()
            invariant
                i <= self.active_users@.len(),
                users@ == self.active_users@.subrange(0, i as int),
            decreases self.active_users@.len() - i,
        {
            users.push(self.active_users[i].clone());
            assert(users@ =~= self.active_users@.subrange(0, i + 1));
            i = i + 1;
        }
        assert(users@ =~= self.active_users@);
        (self.request_count, users)
    }
}

} // verus!
