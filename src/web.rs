//! What the HTTP handlers decide: signing in and out, and the protected
//! user endpoints. The HTTP layer resolves the session cookie with
//! `SessionStore::resolve` and hands the signed-in user in.
use vstd::prelude::*;
use vstd::string::StringExecFns;

use crate::sessions::random_session_id;
use crate::sessions::session_with_id;
use crate::sessions::Session;
use crate::sessions::SessionStore;
use crate::state::AppState;
use crate::users::authenticated;
use crate::users::user_named;
use crate::users::Backend;
use crate::users::Credentials;
use crate::users::Error;
use crate::users::Preferences;
use crate::users::UpdatePassword;
use crate::users::User;

verus! {

/// What the user configuration endpoint returns.
pub struct UserDetails {
    pub messages: Vec<String>,
    pub username: String,
    pub preferences: Preferences,
}

/// The request count after one more request.
pub open spec fn counted(c: u64) -> u64 {
    if c == u64::MAX {
        c
    } else {
        (c + 1) as u64
    }
}

/// Signs in with `creds` at `now` under session id `id`: on a verified
/// password issues the session and marks the user active; otherwise fails
/// with `InvalidCredentials` and changes nothing.
pub fn signin_with_id(
    state: &mut AppState,
    backend: &Backend,
    sessions: &mut SessionStore,
    creds: &Credentials,
    id: u128,
    now: u64,
) -> (r: Result<Session, Error>)
    requires
        old(state).wf(),
        backend.wf(),
        old(sessions).wf(),
    ensures
        final(state).wf(),
        final(sessions).wf(),
        final(sessions).inactivity_timeout == old(sessions).inactivity_timeout,
        final(state).request_count == old(state).request_count,
        authenticated(user_named(backend.users@, creds.username@), creds.password@) is None ==> r == Err::<
            Session,
            Error,
        >(Error::InvalidCredentials),
        authenticated(user_named(backend.users@, creds.username@), creds.password@) is Some ==> (r is Ok
            <==> session_with_id(old(sessions).sessions@, id) is None),
        match r {
            Ok(s) => {
                let u = authenticated(user_named(backend.users@, creds.username@), creds.password@)->0;
                &&& authenticated(user_named(backend.users@, creds.username@), creds.password@) is Some
                &&& s == (Session {
                    id,
                    user_id: u.id,
                    auth_hash: u.password,
                    created_at: now,
                    last_activity: now,
                })
                &&& final(sessions).sessions@ == old(sessions).sessions@.push(s)
                &&& final(state).view().active_users == old(state).view().active_users.insert(creds.username@)
            },
            Err(e) => final(sessions).sessions@ == old(sessions).sessions@ && final(state).active_users
                == old(state).active_users && (authenticated(user_named(backend.users@, creds.username@), creds.password@) is Some
                ==> e == Error::SessionCollision),
        },
{
    let user = match backend.authenticate(creds) {
        Some(u) => u,
        None => return Err(Error::InvalidCredentials),
    };
    let s = match sessions.insert(id, &user, now) {
        Ok(s) => s,
        Err(e) => return Err(e),
    };
    state.mark_active(&creds.username);
    Ok(s)
}

/// Signs in with `creds` at `now` under a freshly drawn random session id
/// (see `signin_with_id`).
pub fn signin(state: &mut AppState, backend: &Backend, sessions: &mut SessionStore, creds: &Credentials, now: u64) -> (r:
    Result<Session, Error>)
    requires
        old(state).wf(),
        backend.wf(),
        old(sessions).wf(),
    ensures
        final(state).wf(),
        final(sessions).wf(),
        final(sessions).inactivity_timeout == old(sessions).inactivity_timeout,
        final(state).request_count == old(state).request_count,
        authenticated(user_named(backend.users@, creds.username@), creds.password@) is None ==> r == Err::<
            Session,
            Error,
        >(Error::InvalidCredentials),
        authenticated(user_named(backend.users@, creds.username@), creds.password@) is Some ==> (r is Ok || r
            == Err::<Session, Error>(Error::SessionCollision)),
        authenticated(user_named(backend.users@, creds.username@), creds.password@) is Some && old(
            sessions,
        ).sessions@.len() == 0 ==> r is Ok,
        match r {
            Ok(s) => {
                let u = authenticated(user_named(backend.users@, creds.username@), creds.password@)->0;
                &&& authenticated(user_named(backend.users@, creds.username@), creds.password@) is Some
                &&& session_with_id(old(sessions).sessions@, s.id) is None
                &&& s.user_id == u.id && s.auth_hash == u.password && s.created_at == now && s.last_activity == now
                &&& final(sessions).sessions@ == old(sessions).sessions@.push(s)
                &&& final(state).view().active_users == old(state).view().active_users.insert(creds.username@)
            },
            Err(_) => final(sessions).sessions@ == old(sessions).sessions@ && final(state).active_users
                == old(state).active_users,
        },
{
    let id = random_session_id();
    signin_with_id(state, backend, sessions, creds, id, now)
}

/// Signs out of session `id`: the session is destroyed.
pub fn signout(sessions: &mut SessionStore, id: u128) -> (r: Result<(), Error>)
    requires
        old(sessions).wf(),
    ensures
        final(sessions).wf(),
        final(sessions).inactivity_timeout == old(sessions).inactivity_timeout,
        r is Ok <==> session_with_id(old(sessions).sessions@, id) is Some,
        r is Err ==> r == Err::<(), Error>(Error::SessionAbsent),
        session_with_id(final(sessions).sessions@, id) is None,
{
    let r = sessions.destroy(id);
    proof {
        if r is Ok {
            let i = choose|i: int|
                0 <= i < old(sessions).sessions@.len() && #[trigger] old(sessions).sessions@[i].id == id
                    && sessions.sessions@ == old(sessions).sessions@.remove(i);
            if session_with_id(sessions.sessions@, id) is Some {
                let k = choose|k: int| 0 <= k < sessions.sessions@.len() && sessions.sessions@[k].id == id;
                let k0 = if k < i { k } else { k + 1 };
                assert(sessions.sessions@[k] == old(sessions).sessions@[k0]);
            }
        }
    }
    r
}

/// The signed-in user's configuration, with preferences picked by draw
/// `num`; the request is counted.
pub fn get_config_with_draw(state: &mut AppState, user: &User, num: usize) -> (r: UserDetails)
    requires
        old(state).wf(),
    ensures
        final(state).wf(),
        final(state).request_count == counted(old(state).request_count),
        final(state).active_users == old(state).active_users,
        r.username@ == user.username@,
        r.messages@.len() == 1,
        r.messages@[0]@ == "new config"@,
        r.preferences.greetings@ == crate::users::greeting_of(num as nat),
        r.preferences.dark_mode == (num % 2 == 0),
{
    state.increment_request_count();
    let mut messages: Vec<String> = Vec::new();
    messages.push(String::from_str("new config"));
    proof {
        reveal_strlit("new config");
    }
    UserDetails { messages, username: user.username.clone(), preferences: Preferences::from_draw(num) }
}

/// The signed-in user's configuration, with random preferences; the
/// request is counted.
pub fn get_config(state: &mut AppState, user: &User) -> (r: UserDetails)
    requires
        old(state).wf(),
    ensures
        final(state).wf(),
        final(state).request_count == counted(old(state).request_count),
        final(state).active_users == old(state).active_users,
        r.username@ == user.username@,
        r.messages@.len() == 1,
        r.messages@[0]@ == "new config"@,
        exists|n: nat|
            n < 3 && r.preferences.greetings@ == crate::users::greeting_of(n) && r.preferences.dark_mode == (n % 2
                == 0),
{
    state.increment_request_count();
    let mut messages: Vec<String> = Vec::new();
    messages.push(String::from_str("new config"));
    proof {
        reveal_strlit("new config");
    }
    UserDetails { messages, username: user.username.clone(), preferences: Preferences::random() }
}

/// Stores the user's preferences and hands them back; the request is
/// counted.
pub fn put_config(state: &mut AppState, preferences: Preferences) -> (r: Preferences)
    requires
        old(state).wf(),
    ensures
        final(state).wf(),
        final(state).request_count == counted(old(state).request_count),
        final(state).active_users == old(state).active_users,
        r == preferences,
{
    state.increment_request_count();
    preferences
}

/// Changes the signed-in user's password (see `Backend::change_password`);
/// the request is counted.
pub fn update_password(state: &mut AppState, backend: &mut Backend, user: &User, passwords: &UpdatePassword) -> (r:
    Result<(), Error>)
    requires
        old(state).wf(),
        old(backend).wf(),
    ensures
        final(state).wf(),
        final(backend).wf(),
        final(state).request_count == counted(old(state).request_count),
        final(state).active_users == old(state).active_users,
        passwords.new_pw@ != passwords.new_pw_retype@ ==> r == Err::<(), Error>(Error::ValidationError),
        r is Ok <==> passwords.new_pw@ == passwords.new_pw_retype@ && passwords.new_pw@.len()
            <= crate::users::MAX_PASSWORD_CHARS && old(backend).holds(user.username@, user.password@),
        r is Err ==> final(backend).users@ == old(backend).users@,
        passwords.new_pw@ == passwords.new_pw_retype@ && passwords.new_pw@.len() <= crate::users::MAX_PASSWORD_CHARS
            && !old(backend).holds(user.username@, user.password@) ==> r == Err::<(), Error>(Error::StaleCredential),
        r is Ok ==> crate::users::password_changed(old(backend).users@, final(backend).users@, user.username@, passwords.new_pw@),
{
    state.increment_request_count();
    user.update_password(passwords, backend)
}

} // verus!
