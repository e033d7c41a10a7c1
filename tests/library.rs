use auth_sessions::args::AppConfig;
use auth_sessions::configs::ServiceDetails;
use auth_sessions::reaper::ReaperAction;
use auth_sessions::reaper::ReaperEvent;
use auth_sessions::reaper::ReaperState;
use auth_sessions::sessions::SessionStore;
use auth_sessions::state::AppState;
use auth_sessions::users::Backend;
use auth_sessions::users::Credentials;
use auth_sessions::users::Error;
use auth_sessions::users::Preferences;
use auth_sessions::users::UpdatePassword;
use auth_sessions::users::User;
use auth_sessions::users::decimal;
use auth_sessions::web;

fn user(id: i64, name: &str, hash: &str) -> User {
    User { id, username: name.to_string(), password: hash.to_string() }
}

fn creds(name: &str, password: &str) -> Credentials {
    Credentials { username: name.to_string(), password: password.to_string(), next: None }
}

fn plain_backend() -> Backend {
    Backend { users: Vec::new(), dummy_hash: String::new() }
}

fn passwords(new_pw: &str, retype: &str) -> UpdatePassword {
    UpdatePassword { old: String::new(), new_pw: new_pw.to_string(), new_pw_retype: retype.to_string() }
}

#[test]
fn api_path_joins_components() {
    let d = ServiceDetails::default();
    assert_eq!(d.api_path(), "/api/v1/TEMPLATE");
    assert_eq!(d.docs_base_path, "/docs");
}

#[test]
fn app_config_defaults() {
    let c = AppConfig::default();
    assert_eq!(c.name, "axum, axum-login, sqlx, aide template");
    assert_eq!(c.db_path, "./sqlite.db");
    assert_eq!(c.data_path, "./cache");
}

#[test]
fn state_counts_requests_and_keeps_each_user_once() {
    let mut s = AppState::new();
    s.increment_request_count();
    s.increment_request_count();
    s.mark_active(&"alice".to_string());
    s.mark_active(&"bob".to_string());
    s.mark_active(&"alice".to_string());
    let (count, users) = s.snapshot();
    assert_eq!(count, 2);
    assert_eq!(users, vec!["alice".to_string(), "bob".to_string()]);
    assert!(s.is_active(&"bob".to_string()));
    assert!(!s.is_active(&"carol".to_string()));
}

#[test]
fn request_count_stops_at_largest_value() {
    let mut s = AppState::new();
    s.request_count = u64::MAX;
    s.increment_request_count();
    assert_eq!(s.request_count, u64::MAX);
}

#[test]
fn provision_rejects_duplicate_id_or_name() {
    let mut b = plain_backend();
    assert_eq!(b.provision(user(1, "alice", "h1")), Ok(()));
    assert_eq!(b.provision(user(1, "bob", "h2")), Err(Error::DuplicateUser));
    assert_eq!(b.provision(user(2, "alice", "h2")), Err(Error::DuplicateUser));
    assert_eq!(b.provision(user(2, "bob", "h2")), Ok(()));
    assert_eq!(b.users.len(), 2);
    assert_eq!(b.find_by_username(&"bob".to_string()).map(|u| u.id), Some(2));
    assert_eq!(b.get_user(1).map(|u| u.username), Some("alice".to_string()));
    assert!(b.get_user(3).is_none());
    assert!(b.find_by_username(&"Alice".to_string()).is_none());
}

#[test]
fn authenticate_accepts_exact_password_only() {
    let b0 = Backend::new();
    let mut b = b0;
    let hash = password_auth::generate_hash("secret123");
    b.provision(user(7, "alice", &hash)).unwrap();
    let found = b.authenticate(&creds("alice", "secret123"));
    assert_eq!(found.map(|u| u.id), Some(7));
    assert!(b.authenticate(&creds("alice", "secret124")).is_none());
    assert!(b.authenticate(&creds("alice", "ecret123")).is_none());
}

#[test]
fn unknown_user_and_wrong_password_both_fail() {
    let mut b = Backend::new();
    let hash = password_auth::generate_hash("pw");
    b.provision(user(1, "alice", &hash)).unwrap();
    assert!(b.authenticate(&creds("nobody", "pw")).is_none());
    assert!(b.authenticate(&creds("alice", "wrong")).is_none());
}

#[test]
fn accept_if_verified_passes_found_user_through() {
    assert_eq!(Backend::accept_if_verified(Some(user(1, "a", "h")), true).map(|u| u.id), Some(1));
    assert!(Backend::accept_if_verified(Some(user(1, "a", "h")), false).is_none());
    assert!(Backend::accept_if_verified(None, true).is_none());
}

#[test]
fn session_create_load_destroy_round_trip() {
    let mut store = SessionStore::new(100);
    let alice = user(5, "alice", "h");
    let s = store.insert(42, &alice, 1000).unwrap();
    assert_eq!(s.user_id, 5);
    assert_eq!(store.load(42).map(|s| s.user_id), Some(5));
    assert_eq!(store.insert(42, &alice, 1001).err(), Some(Error::SessionCollision));
    assert_eq!(store.destroy(42), Ok(()));
    assert!(store.load(42).is_none());
    assert_eq!(store.destroy(42), Err(Error::SessionAbsent));
}

#[test]
fn session_create_draws_distinct_ids() {
    let mut store = SessionStore::new(100);
    let alice = user(5, "alice", "h");
    let a = store.create(&alice, 10).unwrap();
    let b = store.create(&alice, 10).unwrap();
    assert_ne!(a.id, b.id);
    assert_eq!(store.load(a.id).map(|s| s.auth_hash), Some("h".to_string()));
}

#[test]
fn touch_never_moves_activity_back() {
    let mut store = SessionStore::new(100);
    store.insert(1, &user(1, "a", "h"), 50).unwrap();
    assert_eq!(store.touch(1, 80), Ok(()));
    assert_eq!(store.load(1).unwrap().last_activity, 80);
    assert_eq!(store.touch(1, 60), Ok(()));
    assert_eq!(store.load(1).unwrap().last_activity, 80);
    assert_eq!(store.touch(2, 60), Err(Error::SessionAbsent));
}

#[test]
fn sweep_twice_deletes_once() {
    let mut store = SessionStore::new(100);
    let u = user(1, "a", "h");
    store.insert(1, &u, 0).unwrap();
    store.insert(2, &u, 150).unwrap();
    store.insert(3, &u, 50).unwrap();
    store.insert(4, &u, 100).unwrap();
    assert_eq!(store.sweep_expired(200), 2);
    assert!(store.load(1).is_none());
    assert!(store.load(3).is_none());
    assert!(store.load(2).is_some());
    assert!(store.load(4).is_some());
    assert_eq!(store.sweep_expired(200), 0);
    assert_eq!(store.sessions.len(), 2);
}

#[test]
fn expired_session_resolves_to_no_identity() {
    let mut b = plain_backend();
    b.provision(user(1, "alice", "h")).unwrap();
    let mut store = SessionStore::new(100);
    store.insert(9, &b.users[0], 0).unwrap();
    assert_eq!(store.resolve(&b, 9, 100).map(|u| u.id), Ok(1));
    assert_eq!(store.load(9).unwrap().last_activity, 100);
    assert_eq!(store.resolve(&b, 9, 201).err(), Some(Error::SessionExpired));
    assert!(store.load(9).is_none());
    assert_eq!(store.resolve(&b, 9, 202).err(), Some(Error::SessionAbsent));
}

#[test]
fn password_change_invalidates_existing_sessions() {
    let mut b = plain_backend();
    b.provision(user(1, "alice", "old-hash")).unwrap();
    let mut store = SessionStore::new(100);
    let alice = b.users[0].clone();
    store.insert(1, &alice, 0).unwrap();
    store.insert(2, &alice, 5).unwrap();
    assert_eq!(b.apply_password_change(&alice, &passwords("n", "n"), "new-hash".to_string()), Ok(()));
    assert_eq!(b.users[0].password, "new-hash");
    assert_eq!(store.resolve(&b, 1, 10).err(), Some(Error::SessionInvalidated));
    assert_eq!(store.resolve(&b, 2, 10).err(), Some(Error::SessionInvalidated));
    assert!(store.load(1).is_none());
}

#[test]
fn concurrent_password_changes_one_wins() {
    let mut b = plain_backend();
    b.provision(user(1, "alice", "h0")).unwrap();
    let name = "alice".to_string();
    let expected = "h0".to_string();
    let first = b.update_password(&name, &expected, "h1".to_string());
    let second = b.update_password(&name, &expected, "h2".to_string());
    assert_eq!(first, Ok(()));
    assert_eq!(second, Err(Error::StaleCredential));
    assert_eq!(b.users[0].password, "h1");
}

#[test]
fn mismatched_new_passwords_are_refused() {
    let mut b = plain_backend();
    b.provision(user(1, "alice", "h0")).unwrap();
    let alice = b.users[0].clone();
    assert_eq!(b.change_password(&alice, &passwords("a", "b")), Err(Error::ValidationError));
    assert_eq!(b.users[0].password, "h0");
    assert_eq!(
        b.apply_password_change(&user(1, "alice", "stale"), &passwords("a", "a"), "x".to_string()),
        Err(Error::StaleCredential)
    );
}

#[test]
fn user_helpers() {
    let u = user(3, "carol", "secret-hash");
    assert_eq!(u.id(), 3);
    assert_eq!(u.session_auth_hash(), "secret-hash");
    let shown = u.debug_string();
    assert_eq!(shown, "User { id: 3, username: \"carol\", password: \"[redacted]\" }");
    let odd = user(-12, "a\"b", "h");
    assert_eq!(odd.debug_string(), "User { id: -12, username: \"a\\\"b\", password: \"[redacted]\" }");
    assert!(!shown.contains("secret-hash"));
    assert_eq!(u.duplicate().username, "carol");
}

#[test]
fn preferences_follow_the_draw() {
    let p0 = Preferences::from_draw(0);
    assert_eq!(p0.greetings, "hello");
    assert!(p0.dark_mode);
    let p1 = Preferences::from_draw(1);
    assert_eq!(p1.greetings, "ನಮಸ್ಕಾರ");
    assert!(!p1.dark_mode);
    let p2 = Preferences::from_draw(2);
    assert_eq!(p2.greetings, "नमस्ते");
    assert!(p2.dark_mode);
    let r = Preferences::random();
    assert!(["hello", "ನಮಸ್ಕಾರ", "नमस्ते"].contains(&r.greetings.as_str()));
}

#[test]
fn reaper_waits_for_running_sweep_on_shutdown() {
    let s = ReaperState::initial();
    let (s, a) = s.step(ReaperEvent::Tick);
    assert_eq!((s, a), (ReaperState::Sweeping, ReaperAction::StartSweep));
    let (s, a) = s.step(ReaperEvent::Tick);
    assert_eq!((s, a), (ReaperState::Sweeping, ReaperAction::Wait));
    let (s, a) = s.step(ReaperEvent::ShutdownRequested);
    assert_eq!((s, a), (ReaperState::Stopping, ReaperAction::Wait));
    assert!(s.is_shutting_down());
    let (s2, a2) = s.step(ReaperEvent::Tick);
    assert_eq!((s2, a2), (ReaperState::Stopping, ReaperAction::Wait));
    let (s, a) = s.step(ReaperEvent::SweepFinished);
    assert_eq!((s, a), (ReaperState::Stopped, ReaperAction::Exit));
    assert_eq!(ReaperState::Idle.step(ReaperEvent::ShutdownRequested), (ReaperState::Stopped, ReaperAction::Exit));
    assert_eq!(ReaperState::Sweeping.step(ReaperEvent::SweepFinished), (ReaperState::Idle, ReaperAction::Wait));
}

#[test]
fn signin_with_wrong_password_changes_nothing() {
    let mut b = Backend::new();
    b.provision(user(1, "alice", &password_auth::generate_hash("right"))).unwrap();
    let mut state = AppState::new();
    let mut store = SessionStore::new(100);
    let r = web::signin_with_id(&mut state, &b, &mut store, &creds("alice", "wrong"), 5, 0);
    assert_eq!(r.err(), Some(Error::InvalidCredentials));
    assert!(store.sessions.is_empty());
    assert!(state.active_users.is_empty());
    assert_eq!(web::signout(&mut store, 5), Err(Error::SessionAbsent));
}

#[test]
fn put_config_counts_and_echoes() {
    let mut state = AppState::new();
    let p = web::put_config(&mut state, Preferences::from_draw(1));
    assert_eq!(p.greetings, "ನಮಸ್ಕಾರ");
    assert_eq!(state.request_count, 1);
    let d = web::get_config_with_draw(&mut state, &user(1, "bob", "h"), 2);
    assert_eq!(d.username, "bob");
    assert_eq!(d.messages, vec!["new config".to_string()]);
    assert_eq!(d.preferences.greetings, "नमस्ते");
    assert_eq!(state.request_count, 2);
}

#[test]
fn alice_signs_in_changes_password_and_signs_in_again() {
    let mut b = Backend::new();
    b.provision(user(1, "alice", &password_auth::generate_hash("secret123"))).unwrap();
    let mut state = AppState::new();
    let mut store = SessionStore::new(86400);

    let t1 = web::signin(&mut state, &b, &mut store, &creds("alice", "secret123"), 1000).unwrap();
    assert!(state.is_active(&"alice".to_string()));
    let alice = store.resolve(&b, t1.id, 1010).unwrap();
    let details = web::get_config(&mut state, &alice);
    assert_eq!(details.username, "alice");
    assert_eq!(state.request_count, 1);

    let r = web::update_password(&mut state, &mut b, &alice, &passwords("n3wpass", "n3wpass"));
    assert_eq!(r, Ok(()));
    assert_eq!(store.resolve(&b, t1.id, 1020).err(), Some(Error::SessionInvalidated));

    assert_eq!(
        web::signin(&mut state, &b, &mut store, &creds("alice", "secret123"), 1030).err(),
        Some(Error::InvalidCredentials)
    );
    let t2 = web::signin(&mut state, &b, &mut store, &creds("alice", "n3wpass"), 1040).unwrap();
    assert_ne!(t1.id, t2.id);
    let again = store.resolve(&b, t2.id, 1050).unwrap();
    assert_eq!(web::get_config(&mut state, &again).username, "alice");
    assert_eq!(web::signout(&mut store, t2.id), Ok(()));
    assert_eq!(store.resolve(&b, t2.id, 1060).err(), Some(Error::SessionAbsent));
}

#[test]
fn decimal_writes_ids() {
    assert_eq!(decimal(0), "0");
    assert_eq!(decimal(7), "7");
    assert_eq!(decimal(1050), "1050");
    assert_eq!(decimal(-3), "-3");
    assert_eq!(decimal(i64::MAX), "9223372036854775807");
    assert_eq!(decimal(i64::MIN), "-9223372036854775808");
}

#[test]
fn signin_on_empty_store_issues_session() {
    let mut b = Backend::new();
    b.provision(user(4, "dave", &password_auth::generate_hash("pw4"))).unwrap();
    let mut state = AppState::new();
    let mut store = SessionStore::new(100);
    let s = web::signin(&mut state, &b, &mut store, &creds("dave", "pw4"), 3).unwrap();
    assert_eq!(s.user_id, 4);
    assert_eq!(s.created_at, 3);
    assert_eq!(store.sessions.len(), 1);
    assert!(state.is_active(&"dave".to_string()));
}
