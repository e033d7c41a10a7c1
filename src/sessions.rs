//! The session store: sessions keyed by an unguessable id, bound to a user
//! and to the user's password hash, expiring after a period of inactivity.
use vstd::prelude::*;

use crate::users::password_changed;
use crate::users::password_verifies;
use crate::users::user_with_id;
use crate::users::Backend;
use crate::users::Error;
use crate::users::User;

verus! {

/// Relies on rand::random, which draws a `u128` from the thread-local
/// generator (a cryptographically secure one, seeded from the OS).
#[verifier::external_body]
pub(crate) fn random_session_id() -> (r: u128) {
    rand::random::<u128>()
}

/// A login session.
#[derive(Debug, Clone)]
pub struct Session {
    pub id: u128,
    pub user_id: i64,
    /// The user's password hash when the session was issued.
    pub auth_hash: String,
    /// Seconds since the epoch.
    pub created_at: u64,
    /// Seconds since the epoch.
    pub last_activity: u64,
}

impl Session {
    /// A field-for-field copy.
    pub fn duplicate(&self) -> (r: Session)
        ensures
            r == *self,
    {
        Session {
            id: self.id,
            user_id: self.user_id,
            auth_hash: self.auth_hash.clone(),
            created_at: self.created_at,
            last_activity: self.last_activity,
        }
    }
}

/// The session was inactive for longer than `timeout` at time `now`.
pub open spec fn expired(s: Session, now: u64, timeout: u64) -> bool {
    now - s.last_activity > timeout
}

/// No two sessions share an id.
pub open spec fn ids_unique(sessions: Seq<Session>) -> bool {
    forall|i: int, j: int|
        0 <= i < sessions.len() && 0 <= j < sessions.len() && i != j ==> sessions[i].id != sessions[j].id
}

/// The session of `sessions` with id `id`, if any.
pub open spec fn session_with_id(sessions: Seq<Session>, id: u128) -> Option<Session> {
    if exists|i: int| 0 <= i < sessions.len() && sessions[i].id == id {
        Some(sessions[choose|i: int| 0 <= i < sessions.len() && sessions[i].id == id])
    } else {
        None
    }
}

/// `after` is `before` with the session of id `id` taken out.
pub open spec fn destroyed(before: Seq<Session>, after: Seq<Session>, id: u128) -> bool {
    exists|i: int| 0 <= i < before.len() && #[trigger] before[i].id == id && after == before.remove(i)
}

/// `after` holds the sessions of `before` that were not expired at `now`,
/// and when none was, `after` is `before`.
pub open spec fn swept(before: Seq<Session>, after: Seq<Session>, now: u64, timeout: u64) -> bool {
    &&& forall|j: int| 0 <= j < after.len() ==> !expired(#[trigger] after[j], now, timeout) && before.contains(after[j])
    &&& forall|i: int| 0 <= i < before.len() && !expired(#[trigger] before[i], now, timeout) ==> after.contains(before[i])
    &&& (forall|i: int| 0 <= i < before.len() ==> !expired(#[trigger] before[i], now, timeout)) ==> after == before
}

/// What resolving session `id` at `now` yields: the user when the session
/// exists, is not expired, and its user still has the password hash that
/// the session was issued under.
pub open spec fn resolution(sessions: Seq<Session>, users: Seq<User>, id: u128, now: u64, timeout: u64) -> Result<User, Error> {
    match session_with_id(sessions, id) {
        None => Err(Error::SessionAbsent),
        Some(s) => if expired(s, now, timeout) {
            Err(Error::SessionExpired)
        } else {
            match user_with_id(users, s.user_id) {
                None => Err(Error::SessionInvalidated),
                Some(u) => if u.password@ != s.auth_hash@ {
                    Err(Error::SessionInvalidated)
                } else {
                    Ok(u)
                },
            }
        },
    }
}

/// Sessions by id, with the inactivity timeout that ages them out.
pub struct SessionStore {
    pub sessions: Vec<Session>,
    /// Seconds of inactivity after which a session expires.
    pub inactivity_timeout: u64,
}

impl SessionStore {
    pub open spec fn wf(&self) -> bool {
        ids_unique(self.sessions@)
    }

    /// An empty store whose sessions expire after `inactivity_timeout`
    /// seconds without activity.
    pub fn new(inactivity_timeout: u64) -> (r: SessionStore)
        ensures
            r.wf(),
            r.sessions@.len() == 0,
            r.inactivity_timeout == inactivity_timeout,
    {
        SessionStore { sessions: Vec::new(), inactivity_timeout }
    }

    fn index_of(&self, id: u128) -> (r: Option<usize>)
        ensures
            match r {
                Some(i) => i < self.sessions@.len() && self.sessions@[i as int].id == id,
                None => forall|j: int| 0 <= j < self.sessions@.len() ==> self.sessions@[j].id != id,
            },
    {
        let mut i: usize = 0;
        while i < self.sessions.len()
            invariant
                i <= self.sessions@.len(),
                forall|j: int| 0 <= j < i ==> self.sessions@[j].id != id,
            decreases self.sessions@.len() - i,
        {
            if self.sessions[i].id == id {
                return Some(i);
            }
            i = i + 1;
        }
        None
    }

    /// Adds a session with id `id` for `user`, active as of `now`, unless
    /// the id is in use.
    pub fn insert(&mut self, id: u128, user: &User, now: u64) -> (r: Result<Session, Error>)
        requires
            old(self).wf(),
        ensures
            final(self).wf(),
            final(self).inactivity_timeout == old(self).inactivity_timeout,
            r is Ok <==> session_with_id(old(self).sessions@, id) is None,
            match r {
                Ok(s) => s == (Session {
                    id,
                    user_id: user.id,
                    auth_hash: user.password,
                    created_at: now,
                    last_activity: now,
                }) && final(self).sessions@ == old(self).sessions@.push(s),
                Err(e) => e == Error::SessionCollision && final(self).sessions@ == old(self).sessions@,
            },
    {
        match self.index_of(id) {
            Some(i) => {
                assert(session_with_id(self.sessions@, id) is Some);
                Err(Error::SessionCollision)
            },
            None => {
                let s = Session {
                    id,
                    user_id: user.id,
                    auth_hash: user.password.clone(),
                    created_at: now,
                    last_activity: now,
                };
                let r = s.duplicate();
                let ghost before = self.sessions@;
                self.sessions.push(s);
                assert forall|a: int, b: int|
                    0 <= a < self.sessions@.len() && 0 <= b < self.sessions@.len() && a != b implies self.sessions@[a].id
                        != self.sessions@[b].id by {
                    if a < before.len() {
                        assert(self.sessions@[a] == before[a]);
                    }
                    if b < before.len() {
                        assert(self.sessions@[b] == before[b]);
                    }
                }
                Ok(r)
            },
        }
    }

    /// Issues a session for `user` under a freshly drawn random id, active
    /// as of `now`. Fails, leaving the store as it was, only where the id
    /// drawn is already in use.
    pub fn create(&mut self, user: &User, now: u64) -> (r: Result<Session, Error>)
        requires
            old(self).wf(),
        ensures
            final(self).wf(),
            final(self).inactivity_timeout == old(self).inactivity_timeout,
            match r {
                Ok(s) => session_with_id(old(self).sessions@, s.id) is None && s.user_id == user.id
                    && s.auth_hash == user.password && s.created_at == now && s.last_activity == now
                    && final(self).sessions@ == old(self).sessions@.push(s),
                Err(e) => e == Error::SessionCollision && final(self).sessions@ == old(self).sessions@,
            },
            old(self).sessions@.len() == 0 ==> r is Ok,
    {
        let id = random_session_id();
        self.insert(id, user, now)
    }

    /// The session with id `id`.
    pub fn load(&self, id: u128) -> (r: Option<Session>)
        requires
            self.wf(),
        ensures
            r == session_with_id(self.sessions@, id),
    {
        match self.index_of(id) {
            Some(i) => {
                let ghost k = choose|k: int| 0 <= k < self.sessions@.len() && self.sessions@[k].id == id;
                assert(k == i);
                Some(self.sessions[i].duplicate())
            },
            None => None,
        }
    }

    /// Records activity on session `id` at `now`; its last activity never
    /// moves back.
    pub fn touch(&mut self, id: u128, now: u64) -> (r: Result<(), Error>)
        requires
            old(self).wf(),
        ensures
            final(self).wf(),
            final(self).inactivity_timeout == old(self).inactivity_timeout,
            r is Ok <==> session_with_id(old(self).sessions@, id) is Some,
            r is Err ==> r == Err::<(), Error>(Error::SessionAbsent) && final(self).sessions@ == old(self).sessions@,
            r is Ok ==> exists|i: int|
                0 <= i < old(self).sessions@.len() && #[trigger] old(self).sessions@[i].id == id
                    && final(self).sessions@ == old(self).sessions@.update(
                    i,
                    (Session {
                        last_activity: if now > old(self).sessions@[i].last_activity {
                            now
                        } else {
                            old(self).sessions@[i].last_activity
                        },
                        ..old(self).sessions@[i]
                    }),
                ),
    {
        match self.index_of(id) {
            Some(i) => {
                let mut s = self.sessions[i].duplicate();
                if now > s.last_activity {
                    s.last_activity = now;
                }
                self.sessions.set(i, s);
                proof {
                    assert(self.sessions@[i as int].id == id);
                }
                Ok(())
            },
            None => Err(Error::SessionAbsent),
        }
    }

    /// Removes session `id`.
    pub fn destroy(&mut self, id: u128) -> (r: Result<(), Error>)
        requires
            old(self).wf(),
        ensures
            final(self).wf(),
            final(self).inactivity_timeout == old(self).inactivity_timeout,
            r is Ok <==> session_with_id(old(self).sessions@, id) is Some,
            r is Ok ==> destroyed(old(self).sessions@, final(self).sessions@, id),
            r is Err ==> r == Err::<(), Error>(Error::SessionAbsent) && final(self).sessions@ == old(self).sessions@,
    {
        match self.index_of(id) {
            Some(i) => {
                let ghost before = self.sessions@;
                self.sessions.remove(i);
                assert(before[i as int].id == id);
                assert forall|a: int, b: int|
                    0 <= a < self.sessions@.len() && 0 <= b < self.sessions@.len() && a != b implies self.sessions@[a].id
                        != self.sessions@[b].id by {
                    let a0 = if a < i { a } else { a + 1 };
                    let b0 = if b < i { b } else { b + 1 };
                    assert(self.sessions@[a] == before[a0]);
                    assert(self.sessions@[b] == before[b0]);
                }
                Ok(())
            },
            None => Err(Error::SessionAbsent),
        }
    }
    /// Whether `s` was inactive for longer than the timeout at `now`.
    pub fn is_expired(&self, s: &Session, now: u64) -> (r: bool)
        ensures
            r == expired(*s, now, self.inactivity_timeout),
    {
        now > s.last_activity && now - s.last_activity > self.inactivity_timeout
    }

    /// Deletes every session expired at `now` and returns how many were
    /// deleted.
    pub fn sweep_expired(&mut self, now: u64) -> (removed: usize)
        requires
            old(self).wf(),
        ensures
            final(self).wf(),
            final(self).inactivity_timeout == old(self).inactivity_timeout,
            swept(old(self).sessions@, final(self).sessions@, now, old(self).inactivity_timeout),
            removed == old(self).sessions@.len() - final(self).sessions@.len(),
    {
        let ghost before = self.sessions@;
        let mut kept: Vec<Session> = Vec::new();
        let ghost mut idx: Seq<int> = Seq::empty();
        let ghost mut dropped = false;
        let mut i: usize = 0;
        while i < self.sessions.len()
            invariant
                self.sessions@ == before,
                ids_unique(before),
                i <= before.len(),
                kept@.len() <= i,
                idx.len() == kept@.len(),
                forall|j: int|
                    0 <= j < kept@.len() ==> 0 <= #[trigger] idx[j] < i && kept@[j] == before[idx[j]]
                        && !expired(kept@[j], now, self.inactivity_timeout),
                forall|a: int, b: int| 0 <= a < b < kept@.len() ==> idx[a] < idx[b],
                forall|k: int|
                    0 <= k < i && !expired(#[trigger] before[k], now, self.inactivity_timeout) ==> kept@.contains(
                        before[k],
                    ),
                !dropped ==> kept@ == before.subrange(0, i as int),
                dropped ==> exists|k: int| 0 <= k < i && expired(#[trigger] before[k], now, self.inactivity_timeout),
            decreases before.len() - i,
        {
            if !self.is_expired(&self.sessions[i], now) {
                let ghost prev = kept@;
                kept.push(self.sessions[i].duplicate());
                proof {
                    idx = idx.push(i as int);
                    assert forall|k: int|
                        0 <= k < i + 1 && !expired(#[trigger] before[k], now, self.inactivity_timeout) implies kept@.contains(
                            before[k],
                        ) by {
                        if k < i {
                            let j = choose|j: int| 0 <= j < prev.len() && prev[j] == before[k];
                            assert(kept@[j] == before[k]);
                        } else {
                            assert(kept@[prev.len() as int] == before[k]);
                        }
                    }
                    if !dropped {
                        assert(kept@ =~= before.subrange(0, i + 1));
                    }
                }
            } else {
                proof {
                    dropped = true;
                }
            }
            i = i + 1;
        }
        proof {
            if !dropped {
                assert(kept@ =~= before);
            }
            assert forall|a: int, b: int|
                0 <= a < kept@.len() && 0 <= b < kept@.len() && a != b implies kept@[a].id != kept@[b].id by {
                if a < b {
                    assert(idx[a] < idx[b]);
                } else {
                    assert(idx[b] < idx[a]);
                }
            }
            assert forall|j: int| 0 <= j < kept@.len() implies !expired(#[trigger] kept@[j], now, self.inactivity_timeout)
                && before.contains(kept@[j]) by {
                assert(kept@[j] == before[idx[j]]);
            }
        }
        let removed = self.sessions.len() - kept.len();
        self.sessions = kept;
        removed
    }

    /// The user that session `id` stands for at `now`. A session found
    /// expired or invalidated is destroyed; a valid one is touched.
    pub fn resolve(&mut self, backend: &Backend, id: u128, now: u64) -> (r: Result<User, Error>)
        requires
            old(self).wf(),
            backend.wf(),
        ensures
            final(self).wf(),
            final(self).inactivity_timeout == old(self).inactivity_timeout,
            r == resolution(old(self).sessions@, backend.users@, id, now, old(self).inactivity_timeout),
            r == Err::<User, Error>(Error::SessionAbsent) ==> final(self).sessions@ == old(self).sessions@,
            r == Err::<User, Error>(Error::SessionExpired) || r == Err::<User, Error>(Error::SessionInvalidated)
                ==> destroyed(old(self).sessions@, final(self).sessions@, id),
            r is Ok ==> session_with_id(final(self).sessions@, id) == Some(
                (Session {
                    last_activity: if now > session_with_id(old(self).sessions@, id)->0.last_activity {
                        now
                    } else {
                        session_with_id(old(self).sessions@, id)->0.last_activity
                    },
                    ..session_with_id(old(self).sessions@, id)->0
                }),
            ),
    {
        let s = match self.load(id) {
            Some(s) => s,
            None => return Err(Error::SessionAbsent),
        };
        if self.is_expired(&s, now) {
            let _ = self.destroy(id);
            return Err(Error::SessionExpired);
        }
        let u = match backend.get_user(s.user_id) {
            Some(u) => u,
            None => {
                let _ = self.destroy(id);
                return Err(Error::SessionInvalidated);
            },
        };
        if u.password != s.auth_hash {
            let _ = self.destroy(id);
            return Err(Error::SessionInvalidated);
        }
        let ghost before = self.sessions@;
        let _ = self.touch(id, now);
        proof {
            let i = choose|i: int|
                0 <= i < before.len() && #[trigger] before[i].id == id && self.sessions@ == before.update(
                    i,
                    (Session {
                        last_activity: if now > before[i].last_activity {
                            now
                        } else {
                            before[i].last_activity
                        },
                        ..before[i]
                    }),
                );
            let k = choose|k: int| 0 <= k < before.len() && before[k].id == id;
            assert(k == i);
            assert(self.sessions@[i].id == id);
            let k2 = choose|k: int| 0 <= k < self.sessions@.len() && self.sessions@[k].id == id;
            assert(k2 == i);
        }
        Ok(u)
    }
}

/// A session is found by its id right after it was added, with the user id
/// it was issued for, and is no longer found once it was destroyed.
pub proof fn lemma_create_load_destroy(before: Seq<Session>, s: Session, after_destroy: Seq<Session>)
    requires
        ids_unique(before),
        session_with_id(before, s.id) is None,
        destroyed(before.push(s), after_destroy, s.id),
    ensures
        session_with_id(before.push(s), s.id) == Some(s),
        session_with_id(before.push(s), s.id)->0.user_id == s.user_id,
        session_with_id(after_destroy, s.id) is None,
{
    let created = before.push(s);
    assert(created[before.len() as int].id == s.id);
    let k = choose|k: int| 0 <= k < created.len() && created[k].id == s.id;
    if k < before.len() {
        assert(created[k] == before[k]);
        assert(session_with_id(before, s.id) is Some);
    }
    let i = choose|i: int| 0 <= i < created.len() && #[trigger] created[i].id == s.id && after_destroy == created.remove(i);
    if i < before.len() {
        assert(created[i] == before[i]);
        assert(session_with_id(before, s.id) is Some);
    }
    assert(after_destroy =~= before);
}

/// A second sweep at the same time, with no activity in between, deletes
/// nothing.
pub proof fn lemma_sweep_idempotent(
    s0: Seq<Session>,
    s1: Seq<Session>,
    s2: Seq<Session>,
    now: u64,
    timeout: u64,
)
    requires
        swept(s0, s1, now, timeout),
        swept(s1, s2, now, timeout),
    ensures
        s2 == s1,
        s1.len() - s2.len() == 0,
{
}

/// A session inactive for longer than the timeout resolves to no identity.
pub proof fn lemma_expired_session_yields_no_identity(
    sessions: Seq<Session>,
    users: Seq<User>,
    id: u128,
    now: u64,
    timeout: u64,
)
    requires
        session_with_id(sessions, id) is Some,
        now - session_with_id(sessions, id)->0.last_activity > timeout,
    ensures
        resolution(sessions, users, id, now, timeout) == Err::<User, Error>(Error::SessionExpired),
{
}

/// After a user's password is changed to one that the old hash does not
/// accept, every session issued under the old hash resolves to no identity.
pub proof fn lemma_password_change_invalidates_sessions(
    b0: Backend,
    b1: Backend,
    i: int,
    new_password: Seq<char>,
    sessions: Seq<Session>,
    id: u128,
    now: u64,
    timeout: u64,
)
    requires
        b0.wf(),
        b1.wf(),
        0 <= i < b0.users@.len(),
        password_changed(b0.users@, b1.users@, b0.users@[i].username@, new_password),
        !password_verifies(new_password, b0.users@[i].password@),
        session_with_id(sessions, id) is Some,
        session_with_id(sessions, id)->0.user_id == b0.users@[i].id,
        session_with_id(sessions, id)->0.auth_hash@ == b0.users@[i].password@,
    ensures
        resolution(sessions, b1.users@, id, now, timeout) is Err,
{
    let name = b0.users@[i].username@;
    let w = choose|w: int|
        0 <= w < b0.users@.len() && #[trigger] b0.users@[w].username@ == name && b1.users@ == b0.users@.update(
            w,
            (User { id: b0.users@[w].id, username: b0.users@[w].username, password: b1.users@[w].password }),
        ) && password_verifies(new_password, b1.users@[w].password@);
    assert(w == i);
    let s = session_with_id(sessions, id)->0;
    assert(b1.users@[i].id == s.user_id);
    let k = choose|k: int| 0 <= k < b1.users@.len() && b1.users@[k].id == s.user_id;
    assert(k == i);
}

} // verus!
