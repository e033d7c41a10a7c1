//! Users, credentials and the authentication backend: the credential store,
//! password verification and optimistic password changes.
use rand::Rng;
use vstd::pervasive::VecAdditionalExecFns;
use vstd::prelude::*;
use vstd::string::StrSliceExecFns;
use vstd::string::StringExecFns;

verus! {

/// Whether `password` verifies against the stored PHC `hash`.
pub uninterp spec fn password_verifies(password: Seq<char>, hash: Seq<char>) -> bool;

/// Relies on password_auth::verify_password, which parses the PHC string
/// `hash` and checks `password` against it; its outcome depends on the two
/// arguments alone.
#[verifier::external_body]
fn verify_password(password: &String, hash: &String) -> (r: bool)
    ensures
        r == password_verifies(password@, hash@),
{
    password_auth::verify_password(password.as_bytes(), hash.as_str()).is_ok()
}

/// Relies on password_auth::generate_hash, which hashes `password` with a
/// fresh random salt into a PHC string that password_auth::verify_password
/// accepts for that password. Argon2 refuses (and the call panics on) a
/// password of 2^32 bytes or more; four bytes per character keeps below that.
#[verifier::external_body]
fn generate_hash(password: &String) -> (r: String)
    requires
        password@.len() < 0x3fff_ffff,
    ensures
        password_verifies(password@, r@),
{
    password_auth::generate_hash(password.as_bytes())
}

/// What `{:?}` writes for a string: the string quoted, with its special
/// characters escaped.
pub uninterp spec fn debug_str_of(s: Seq<char>) -> Seq<char>;

/// Relies on the `Debug` impl of `str`, whose output depends on the
/// characters alone.
#[verifier::external_body]
fn debug_quoted(s: &String) -> (r: String)
    ensures
        r@ == debug_str_of(s@),
{
    format!("{:?}", s.as_str())
}

/// Relies on rand::Rng::gen_range over the thread-local generator: a value
/// drawn from `0..n`.
#[verifier::external_body]
fn draw_below(n: usize) -> (r: usize)
    requires
        n > 0,
    ensures
        r < n,
{
    rand::thread_rng().gen_range(0..n)
}

/// Longest password, in characters, that the hasher accepts here.
pub const MAX_PASSWORD_CHARS: usize = 0x3fff_fffe;

/// The errors of authentication, sessions and password changes.
#[derive(Debug, Clone, Copy, PartialEq, Eq, Structural)]
pub enum Error {
    /// Wrong username or password; which of the two is never told.
    InvalidCredentials,
    /// The stored password hash changed since the caller read it.
    StaleCredential,
    /// The new password and its confirmation differ, or the password is too long.
    ValidationError,
    /// A user with that id or username already exists.
    DuplicateUser,
    /// No session has that id.
    SessionAbsent,
    /// The session was inactive for longer than the timeout.
    SessionExpired,
    /// The user's password changed since the session was issued, or the
    /// user is gone.
    SessionInvalidated,
    /// The session id that was drawn is already in use.
    SessionCollision,
}

/// A stored user: its id, its username and its password hash.
#[derive(Clone)]
pub struct User {
    pub id: i64,
    pub username: String,
    /// PHC string of the password hash; never printed.
    pub password: String,
}

/// The decimal digit `d`.
pub open spec fn digit_of(d: nat) -> char {
    seq!['0', '1', '2', '3', '4', '5', '6', '7', '8', '9'][d as int]
}

/// The decimal digits of `n`, without leading zeros.
pub open spec fn nat_decimal(n: nat) -> Seq<char>
    decreases n,
{
    if n < 10 {
        seq![digit_of(n)]
    } else {
        nat_decimal(n / 10).push(digit_of(n % 10))
    }
}

/// `n` in decimal, with a leading `-` when negative.
pub open spec fn int_decimal(n: int) -> Seq<char> {
    if n < 0 {
        seq!['-'] + nat_decimal((-n) as nat)
    } else {
        nat_decimal(n as nat)
    }
}

fn digit_str(d: u64) -> (r: &'static str)
    requires
        d < 10,
    ensures
        r@ == seq![digit_of(d as nat)],
{
    proof {
        reveal_strlit("0");
        reveal_strlit("1");
        reveal_strlit("2");
        reveal_strlit("3");
        reveal_strlit("4");
        reveal_strlit("5");
        reveal_strlit("6");
        reveal_strlit("7");
        reveal_strlit("8");
        reveal_strlit("9");
    }
    if d == 0 {
        "0"
    } else if d == 1 {
        "1"
    } else if d == 2 {
        "2"
    } else if d == 3 {
        "3"
    } else if d == 4 {
        "4"
    } else if d == 5 {
        "5"
    } else if d == 6 {
        "6"
    } else if d == 7 {
        "7"
    } else if d == 8 {
        "8"
    } else {
        "9"
    }
}

fn append_decimal(out: &mut String, n: u64)
    ensures
        final(out)@ == old(out)@ + nat_decimal(n as nat),
    decreases n,
{
    if n >= 10 {
        append_decimal(out, n / 10);
    }
    out.append(digit_str(n % 10));
    assert(out@ =~= old(out)@ + nat_decimal(n as nat));
}

/// `n` written in decimal.
pub fn decimal(n: i64) -> (r: String)
    ensures
        r@ == int_decimal(n as int),
{
    let mut r = String::new();
    if n < 0 {
        r.append("-");
        let m: u64 = (0i128 - n as i128) as u64;
        append_decimal(&mut r, m);
        proof {
            reveal_strlit("-");
        }
    } else {
        append_decimal(&mut r, n as u64);
    }
    r
}

impl User {
    /// A field-for-field copy.
    pub fn duplicate(&self) -> (r: User)
        ensures
            r == *self,
    {
        User { id: self.id, username: self.username.clone(), password: self.password.clone() }
    }

    /// The user's id.
    pub fn id(&self) -> (r: i64)
        ensures
            r == self.id,
    {
        self.id
    }

    /// The value that binds a session to the user's current password: the
    /// password hash itself.
    pub fn session_auth_hash(&self) -> (r: String)
        ensures
            r == self.password,
    {
        self.password.clone()
    }

    /// The user as its `Debug` output shows it, with the password hash
    /// left out: `User { id: 3, username: "carol", password: "[redacted]" }`.
    pub fn debug_string(&self) -> (r: String)
        ensures
            r@ == "User { id: "@ + int_decimal(self.id as int) + ", username: "@ + debug_str_of(self.username@)
                + ", password: \"[redacted]\" }"@,
    {
        let mut r = String::from_str("User { id: ");
        let id = decimal(self.id);
        r.append(id.as_str());
        r.append(", username: ");
        let name = debug_quoted(&self.username);
        r.append(name.as_str());
        r.append(", password: \"[redacted]\" }");
        r
    }

    /// Changes this user's password in `backend` (see
    /// `Backend::change_password`).
    pub fn update_password(&self, passwords: &UpdatePassword, backend: &mut Backend) -> (r: Result<(), Error>)
        requires
            old(backend).wf(),
        ensures
            final(backend).wf(),
            passwords.new_pw@ != passwords.new_pw_retype@ ==> r == Err::<(), Error>(Error::ValidationError),
            r is Ok <==> passwords.new_pw@ == passwords.new_pw_retype@
                && passwords.new_pw@.len() <= MAX_PASSWORD_CHARS
                && old(backend).holds(self.username@, self.password@),
            r is Err ==> final(backend).users@ == old(backend).users@,
            passwords.new_pw@ == passwords.new_pw_retype@ && passwords.new_pw@.len() <= MAX_PASSWORD_CHARS
                && !old(backend).holds(self.username@, self.password@) ==> r == Err::<(), Error>(Error::StaleCredential),
            r is Ok ==> password_changed(old(backend).users@, final(backend).users@, self.username@, passwords.new_pw@),
    {
        backend.change_password(self, passwords)
    }
}

/// A request to change the signed-in user's password.
#[derive(Clone)]
pub struct UpdatePassword {
    pub old: String,
    pub new_pw: String,
    pub new_pw_retype: String,
}

/// What a user submits to sign in.
#[derive(Debug, Clone)]
pub struct Credentials {
    pub username: String,
    pub password: String,
    /// Where to go after signing in; not read here.
    pub next: Option<String>,
}

/// A user's display preferences.
#[derive(Debug, Clone)]
pub struct Preferences {
    pub greetings: String,
    pub dark_mode: bool,
}

/// The greeting picked by draw `n`.
pub open spec fn greeting_of(n: nat) -> Seq<char> {
    if n % 3 == 0 {
        "hello"@
    } else if n % 3 == 1 {
        "ನಮಸ್ಕಾರ"@
    } else {
        "नमस्ते"@
    }
}

impl Preferences {
    /// The preferences picked by draw `num`: one of three greetings, and
    /// dark mode on even draws.
    pub fn from_draw(num: usize) -> (r: Preferences)
        ensures
            r.greetings@ == greeting_of(num as nat),
            r.dark_mode == (num % 2 == 0),
    {
        let g = if num % 3 == 0 {
            "hello"
        } else if num % 3 == 1 {
            "ನಮಸ್ಕಾರ"
        } else {
            "नमस्ते"
        };
        Preferences { greetings: String::from_str(g), dark_mode: num % 2 == 0 }
    }

    /// Preferences picked at random among those of draws 0, 1 and 2.
    pub fn random() -> (r: Preferences)
        ensures
            exists|n: nat| n < 3 && r.greetings@ == greeting_of(n) && r.dark_mode == (n % 2 == 0),
    {
        let num = draw_below(3);
        let r = Preferences::from_draw(num);
        assert(num as nat % 2 == 0 <==> num % 2 == 0);
        r
    }
}

/// A user of `users` whose username is `name`, if any (there is at most
/// one in a well-formed store).
pub open spec fn user_named(users: Seq<User>, name: Seq<char>) -> Option<User> {
    if exists|i: int| 0 <= i < users.len() && users[i].username@ == name {
        Some(users[choose|i: int| 0 <= i < users.len() && users[i].username@ == name])
    } else {
        None
    }
}

/// A user of `users` whose id is `id`, if any (there is at most one in a
/// well-formed store).
pub open spec fn user_with_id(users: Seq<User>, id: i64) -> Option<User> {
    if exists|i: int| 0 <= i < users.len() && users[i].id == id {
        Some(users[choose|i: int| 0 <= i < users.len() && users[i].id == id])
    } else {
        None
    }
}

/// `after` is `before` with the hash of the user named `username` replaced
/// by one that `new_password` verifies against.
pub open spec fn password_changed(before: Seq<User>, after: Seq<User>, username: Seq<char>, new_password: Seq<char>) -> bool {
    exists|i: int|
        0 <= i < before.len() && #[trigger] before[i].username@ == username && after == before.update(
            i,
            (User { id: before[i].id, username: before[i].username, password: after[i].password }),
        ) && password_verifies(new_password, after[i].password@)
}

/// What authentication returns for `password` given what the lookup found.
pub open spec fn authenticated(found: Option<User>, password: Seq<char>) -> Option<User> {
    match found {
        Some(u) => if password_verifies(password, u.password@) {
            Some(u)
        } else {
            None
        },
        None => None,
    }
}

/// The credential store: users keyed by id and by username, each unique.
pub struct Backend {
    pub users: Vec<User>,
    /// A hash of a password nobody has, checked against when the username
    /// is unknown so that both failures cost the same.
    pub dummy_hash: String,
}

impl Backend {
    /// Ids and usernames are unique.
    pub open spec fn wf(&self) -> bool {
        forall|i: int, j: int|
            0 <= i < self.users@.len() && 0 <= j < self.users@.len() && i != j ==> {
                &&& self.users@[i].id != self.users@[j].id
                &&& self.users@[i].username@ != self.users@[j].username@
            }
    }

    /// Some user is named `name` and has password hash `hash`.
    pub open spec fn holds(&self, name: Seq<char>, hash: Seq<char>) -> bool {
        exists|i: int|
            0 <= i < self.users@.len() && self.users@[i].username@ == name && self.users@[i].password@
                == hash
    }

    /// An empty store.
    pub fn new() -> (r: Backend)
        ensures
            r.wf(),
            r.users@.len() == 0,
    {
        let dummy = String::from_str("not a password of anyone");
        proof {
            reveal_strlit("not a password of anyone");
        }
        Backend { users: Vec::new(), dummy_hash: generate_hash(&dummy) }
    }

    /// Index of the user named `name`.
    fn index_of_name(&self, name: &String) -> (r: Option<usize>)
        ensures
            match r {
                Some(i) => i < self.users@.len() && self.users@[i as int].username@ == name@,
                None => forall|j: int| 0 <= j < self.users@.len() ==> self.users@[j].username@ != name@,
            },
    {
        let mut i: usize = 0;
        while i < self.users.len()
            invariant
                i <= self.users@.len(),
                forall|j: int| 0 <= j < i ==> self.users@[j].username@ != name@,
            decreases self.users@.len() - i,
        {
            if self.users[i].username == *name {
                return Some(i);
            }
            i = i + 1;
        }
        None
    }

    /// Index of the user with id `id`.
    fn index_of_id(&self, id: i64) -> (r: Option<usize>)
        ensures
            match r {
                Some(i) => i < self.users@.len() && self.users@[i as int].id == id,
                None => forall|j: int| 0 <= j < self.users@.len() ==> self.users@[j].id != id,
            },
    {
        let mut i: usize = 0;
        while i < self.users.len()
            invariant
                i <= self.users@.len(),
                forall|j: int| 0 <= j < i ==> self.users@[j].id != id,
            decreases self.users@.len() - i,
        {
            if self.users[i].id == id {
                return Some(i);
            }
            i = i + 1;
        }
        None
    }

    /// Adds a user, unless its id or its username is taken.
    pub fn provision(&mut self, user: User) -> (r: Result<(), Error>)
        requires
            old(self).wf(),
        ensures
            final(self).wf(),
            final(self).dummy_hash == old(self).dummy_hash,
            r is Ok <==> user_with_id(old(self).users@, user.id) is None && user_named(
                old(self).users@,
                user.username@,
            ) is None,
            r is Ok ==> final(self).users@ == old(self).users@.push(user),
            r is Err ==> r == Err::<(), Error>(Error::DuplicateUser) && final(self).users@ == old(
                self,
            ).users@,
    {
        match self.index_of_id(user.id) {
            Some(i) => {
                assert(user_with_id(self.users@, user.id) is Some);
                return Err(Error::DuplicateUser);
            },
            None => {},
        }
        match self.index_of_name(&user.username) {
            Some(i) => {
                assert(user_named(self.users@, user.username@) is Some);
                return Err(Error::DuplicateUser);
            },
            None => {},
        }
        self.users.push(user);
        Ok(())
    }

    /// The user named `username`.
    pub fn find_by_username(&self, username: &String) -> (r: Option<User>)
        requires
            self.wf(),
        ensures
            r == user_named(self.users@, username@),
    {
        match self.index_of_name(username) {
            Some(i) => {
                let u = self.users[i].duplicate();
                assert(self.users@[i as int].username@ == username@);
                let ghost k = choose|k: int| 0 <= k < self.users@.len() && self.users@[k].username@ == username@;
                assert(k == i);
                Some(u)
            },
            None => None,
        }
    }

    /// The user with id `id`.
    pub fn get_user(&self, id: i64) -> (r: Option<User>)
        requires
            self.wf(),
        ensures
            r == user_with_id(self.users@, id),
    {
        match self.index_of_id(id) {
            Some(i) => {
                let u = self.users[i].duplicate();
                let ghost k = choose|k: int| 0 <= k < self.users@.len() && self.users@[k].id == id;
                assert(k == i);
                Some(u)
            },
            None => None,
        }
    }

    /// The found user when its password verified, and nothing otherwise.
    pub fn accept_if_verified(found: Option<User>, verified: bool) -> (r: Option<User>)
        ensures
            r == (if verified {
                found
            } else {
                None
            }),
    {
        if verified {
            found
        } else {
            None
        }
    }

    /// The user named in `creds` when the password verifies against its
    /// hash. For an unknown username the password is still checked, against
    /// the dummy hash, and nothing is returned.
    pub fn authenticate(&self, creds: &Credentials) -> (r: Option<User>)
        requires
            self.wf(),
        ensures
            r == authenticated(user_named(self.users@, creds.username@), creds.password@),
    {
        let found = self.find_by_username(&creds.username);
        match found {
            Some(u) => {
                let ok = verify_password(&creds.password, &u.password);
                Backend::accept_if_verified(Some(u), ok)
            },
            None => {
                let _ = verify_password(&creds.password, &self.dummy_hash);
                None
            },
        }
    }

    /// Replaces the password hash of the user named `username`, only where
    /// it is still `expected_old_hash`; otherwise reports a conflict.
    pub fn update_password(&mut self, username: &String, expected_old_hash: &String, new_hash: String) -> (r:
        Result<(), Error>)
        requires
            old(self).wf(),
        ensures
            final(self).wf(),
            final(self).dummy_hash == old(self).dummy_hash,
            r is Ok <==> old(self).holds(username@, expected_old_hash@),
            r is Err ==> r == Err::<(), Error>(Error::StaleCredential) && final(self).users@ == old(
                self,
            ).users@,
            r is Ok ==> exists|i: int|
                0 <= i < old(self).users@.len() && old(self).users@[i].username@ == username@
                    && final(self).users@ == old(self).users@.update(
                    i,
                    (User { id: old(self).users@[i].id, username: old(self).users@[i].username, password: new_hash }),
                ),
    {
        match self.index_of_name(username) {
            Some(i) => {
                if self.users[i].password == *expected_old_hash {
                    let u = User { id: self.users[i].id, username: self.users[i].username.clone(), password: new_hash };
                    self.users.set(i, u);
                    return Ok(());
                }
                proof {
                    if old(self).holds(username@, expected_old_hash@) {
                        let k = choose|k: int|
                            0 <= k < self.users@.len() && self.users@[k].username@ == username@
                                && self.users@[k].password@ == expected_old_hash@;
                        assert(k == i);
                    }
                }
                Err(Error::StaleCredential)
            },
            None => Err(Error::StaleCredential),
        }
    }

    /// Sets `user`'s password to the one that `new_hash` was made from,
    /// once the new password and its confirmation agree; the change goes
    /// through only while the stored hash is still `user`'s.
    pub fn apply_password_change(&mut self, user: &User, passwords: &UpdatePassword, new_hash: String) -> (r:
        Result<(), Error>)
        requires
            old(self).wf(),
        ensures
            final(self).wf(),
            final(self).dummy_hash == old(self).dummy_hash,
            passwords.new_pw@ != passwords.new_pw_retype@ ==> r == Err::<(), Error>(Error::ValidationError),
            passwords.new_pw@ == passwords.new_pw_retype@ ==> (r is Ok <==> old(self).holds(
                user.username@,
                user.password@,
            )) && (r is Err ==> r == Err::<(), Error>(Error::StaleCredential)),
            r is Err ==> final(self).users@ == old(self).users@,
            r is Ok ==> exists|i: int|
                0 <= i < old(self).users@.len() && old(self).users@[i].username@ == user.username@
                    && final(self).users@ == old(self).users@.update(
                    i,
                    (User { id: old(self).users@[i].id, username: old(self).users@[i].username, password: new_hash }),
                ),
    {
        if passwords.new_pw != passwords.new_pw_retype {
            return Err(Error::ValidationError);
        }
        self.update_password(&user.username, &user.password, new_hash)
    }

    /// Hashes the new password and applies it to `user` as
    /// `apply_password_change` does with that hash.
    pub fn change_password(&mut self, user: &User, passwords: &UpdatePassword) -> (r: Result<(), Error>)
        requires
            old(self).wf(),
        ensures
            final(self).wf(),
            final(self).dummy_hash == old(self).dummy_hash,
            passwords.new_pw@ != passwords.new_pw_retype@ ==> r == Err::<(), Error>(Error::ValidationError),
            r is Ok <==> passwords.new_pw@ == passwords.new_pw_retype@ && passwords.new_pw@.len()
                <= MAX_PASSWORD_CHARS && old(self).holds(user.username@, user.password@),
            r is Err ==> final(self).users@ == old(self).users@,
            passwords.new_pw@ == passwords.new_pw_retype@ && passwords.new_pw@.len() <= MAX_PASSWORD_CHARS
                && !old(self).holds(user.username@, user.password@) ==> r == Err::<(), Error>(Error::StaleCredential),
            r is Ok ==> password_changed(old(self).users@, final(self).users@, user.username@, passwords.new_pw@),
    {
        if passwords.new_pw != passwords.new_pw_retype {
            return Err(Error::ValidationError);
        }
        if passwords.new_pw.as_str().unicode_len() > MAX_PASSWORD_CHARS {
            return Err(Error::ValidationError);
        }
        let new_hash = generate_hash(&passwords.new_pw);
        self.apply_password_change(user, passwords, new_hash)
    }
}

/// Authentication with a password returns the user named in the
/// credentials exactly when the password verifies against that user's
/// stored hash; any other password, a mistyped one included, gives no match.
pub proof fn lemma_authenticate_provisioned(b: Backend, i: int, password: Seq<char>)
    requires
        b.wf(),
        0 <= i < b.users@.len(),
    ensures
        authenticated(user_named(b.users@, b.users@[i].username@), password) == (if password_verifies(
            password,
            b.users@[i].password@,
        ) {
            Some(b.users@[i])
        } else {
            None
        }),
{
    let k = choose|k: int| 0 <= k < b.users@.len() && b.users@[k].username@ == b.users@[i].username@;
    assert(k == i);
}

/// An unknown username and a known one with a wrong password both give no
/// match.
pub proof fn lemma_unknown_user_like_wrong_password(b: Backend, username: Seq<char>, password: Seq<char>)
    requires
        b.wf(),
        user_named(b.users@, username) is None || !password_verifies(
            password,
            user_named(b.users@, username)->0.password@,
        ),
    ensures
        authenticated(user_named(b.users@, username), password) is None,
{
}

/// Of two password changes for the same user that both expect the hash
/// stored before either, once the first has gone through the second finds
/// the hash changed and reports a conflict, unless the old hash also
/// accepts the first change's new password.
pub proof fn lemma_second_change_conflicts(
    b0: Backend,
    b1: Backend,
    username: Seq<char>,
    expected_old_hash: Seq<char>,
    new_password: Seq<char>,
)
    requires
        b1.wf(),
        password_changed(b0.users@, b1.users@, username, new_password),
        !password_verifies(new_password, expected_old_hash),
    ensures
        !b1.holds(username, expected_old_hash),
{
    let i = choose|i: int|
        0 <= i < b0.users@.len() && #[trigger] b0.users@[i].username@ == username && b1.users@ == b0.users@.update(
            i,
            (User { id: b0.users@[i].id, username: b0.users@[i].username, password: b1.users@[i].password }),
        ) && password_verifies(new_password, b1.users@[i].password@);
    if b1.holds(username, expected_old_hash) {
        let k = choose|k: int|
            0 <= k < b1.users@.len() && b1.users@[k].username@ == username && b1.users@[k].password@
                == expected_old_hash;
        assert(b1.users@[i].username@ == username);
        assert(k == i);
    }
}

/// After a password change the user signs in with the new password.
pub proof fn lemma_new_password_signs_in(b0: Backend, b1: Backend, username: Seq<char>, new_password: Seq<char>)
    requires
        b1.wf(),
        password_changed(b0.users@, b1.users@, username, new_password),
    ensures
        authenticated(user_named(b1.users@, username), new_password) is Some,
        authenticated(user_named(b1.users@, username), new_password)->0.username@ == username,
{
    let i = choose|i: int|
        0 <= i < b0.users@.len() && #[trigger] b0.users@[i].username@ == username && b1.users@ == b0.users@.update(
            i,
            (User { id: b0.users@[i].id, username: b0.users@[i].username, password: b1.users@[i].password }),
        ) && password_verifies(new_password, b1.users@[i].password@);
    assert(b1.users@[i].username@ == username);
    lemma_authenticate_provisioned(b1, i, new_password);
}

} // verus!
