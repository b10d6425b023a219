//! Accounts: usernames with Argon2 password hashes, sign-up and log-in.
use vstd::prelude::*;
use argon2::{password_hash::SaltString, Argon2, PasswordHash, PasswordHasher, PasswordVerifier};
use crate::text::str_eq;
use crate::AuthError;

verus! {

/// Whether `password` verifies against the PHC-format Argon2 hash `hash`.
pub uninterp spec fn argon2_accepts(password: Seq<char>, hash: Seq<char>) -> bool;

/// Relies on argon2: `PasswordHash::new(hash)`, then
/// `Argon2::default().verify_password`; true exactly where both succeed, a
/// verdict that depends on the two texts alone.
#[verifier::external_body]
fn argon2_verify(password: &str, hash: &str) -> (r: bool)
    ensures
        r == argon2_accepts(password@, hash@),
{
    match PasswordHash::new(hash) {
        Ok(parsed) => Argon2::default().verify_password(password.as_bytes(), &parsed).is_ok(),
        Err(_) => false,
    }
}

/// Relies on argon2: `Argon2::default().hash_password` under a salt from
/// `SaltString::generate(rand::thread_rng())`, in PHC format. The salt is
/// random; whatever it is, `verify_password` hashes again with the salt and
/// parameters that the hash carries, so the hash verifies its own password.
#[verifier::external_body]
fn argon2_hash(password: &str) -> (r: Option<String>)
    ensures
        r matches Some(h) ==> argon2_accepts(password@, h@),
{
    let salt = SaltString::generate(rand::thread_rng());
    match Argon2::default().hash_password(password.as_bytes(), &salt) {
        Ok(hash) => Some(hash.to_string()),
        Err(_) => None,
    }
}

/// An account, as the contracts see it.
pub struct UserView {
    pub id: u128,
    pub username: Seq<char>,
    pub password_hash: Seq<char>,
}

pub struct User {
    pub id: u128,
    pub username: String,
    pub password_hash: String,
}

impl View for User {
    type V = UserView;

    open spec fn view(&self) -> UserView {
        UserView { id: self.id, username: self.username@, password_hash: self.password_hash@ }
    }
}

/// Usernames are unique.
pub open spec fn users_wf(users: Seq<UserView>) -> bool {
    forall|i: int, j: int|
        0 <= i < users.len() && 0 <= j < users.len() && i != j ==> (#[trigger] users[i]).username
            != (#[trigger] users[j]).username
}

pub open spec fn has_user(users: Seq<UserView>, name: Seq<char>) -> bool {
    exists|i: int| 0 <= i < users.len() && (#[trigger] users[i]).username == name
}

/// The password hash stored for `name`, if any.
pub open spec fn hash_of(users: Seq<UserView>, name: Seq<char>) -> Option<Seq<char>> {
    if has_user(users, name) {
        let i = choose|i: int| 0 <= i < users.len() && (#[trigger] users[i]).username == name;
        Some(users[i].password_hash)
    } else {
        None
    }
}

/// The accounts.
pub struct UserDirectory {
    users: Vec<User>,
}

impl View for UserDirectory {
    type V = Seq<UserView>;

    closed spec fn view(&self) -> Seq<UserView> {
        self.users@.map_values(|u: User| u@)
    }
}

impl UserDirectory {
    pub open spec fn wf(&self) -> bool {
        users_wf(self@)
    }

    pub fn new() -> (r: UserDirectory)
        ensures
            r.wf(),
            r@.len() == 0,
    {
        let r = UserDirectory { users: Vec::new() };
        assert(r@ =~= Seq::empty());
        r
    }

    /// The password hash stored for `username`, if any.
    pub fn password_hash(&self, username: &str) -> (r: Option<String>)
        requires
            self.wf(),
        ensures
            r matches Some(h) ==> hash_of(self@, username@) == Some(h@),
            r is None ==> hash_of(self@, username@) is None,
    {
        let n = self.users.len();
        let mut i: usize = 0;
        while i < n
            invariant
                self.wf(),
                n == self.users.len(),
                i <= n,
                forall|j: int| 0 <= j < i ==> (#[trigger] self@[j]).username != username@,
            decreases n - i,
        {
            if str_eq(self.users[i].username.as_str(), username) {
                proof {
                    assert(self@[i as int].username == username@);
                    assert(has_user(self@, username@));
                    let k = choose|k: int|
                        0 <= k < self@.len() && (#[trigger] self@[k]).username == username@;
                    assert(self@[k].username == self@[i as int].username);
                }
                return Some(self.users[i].password_hash.clone());
            }
            i = i + 1;
        }
        None
    }

    /// Adds an account; a username that is taken is refused.
    pub fn insert(&mut self, id: u128, username: &str, password_hash: String) -> (r: bool)
        requires
            old(self).wf(),
        ensures
            final(self).wf(),
            r == !has_user(old(self)@, username@),
            r ==> final(self)@ == old(self)@.push(
                UserView { id, username: username@, password_hash: password_hash@ },
            ),
            !r ==> final(self)@ == old(self)@,
    {
        if self.password_hash(username).is_some() {
            return false;
        }
        let ghost before = self@;
        self.users.push(User { id, username: String::from_str(username), password_hash });
        proof {
            assert(self@ =~= before.push(UserView { id, username: username@, password_hash: password_hash@ }));
            assert forall|i: int, j: int|
                0 <= i < self@.len() && 0 <= j < self@.len() && i != j implies (#[trigger] self@[i]).username
                    != (#[trigger] self@[j]).username by {
                if i < before.len() && j == before.len() {
                    assert(before[i].username != username@);
                } else if j < before.len() && i == before.len() {
                    assert(before[j].username != username@);
                }
            }
        }
        true
    }
}

/// The outcome of a log-in with `password` for an account whose stored hash
/// is `stored`, if there is one.
pub open spec fn login_accepts(stored: Option<Seq<char>>, password: Seq<char>) -> bool {
    stored matches Some(h) && argon2_accepts(password, h)
}

/// Logs `username` in: `UserNotFound` where there is no such account,
/// `IncorrectPassword` where the password does not verify against its hash.
pub fn login(users: &UserDirectory, username: &str, password: &str) -> (r: Result<(), AuthError>)
    requires
        users.wf(),
    ensures
        hash_of(users@, username@) is None ==> r matches Err(AuthError::UserNotFound),
        hash_of(users@, username@) is Some ==> (r is Ok <==> login_accepts(
            hash_of(users@, username@),
            password@,
        )),
        hash_of(users@, username@) is Some && r is Err ==> r matches Err(
            AuthError::IncorrectPassword,
        ),
{
    match users.password_hash(username) {
        None => Err(AuthError::UserNotFound),
        Some(hash) => if argon2_verify(password, hash.as_str()) {
            Ok(())
        } else {
            Err(AuthError::IncorrectPassword)
        },
    }
}

pub open spec fn taken_message() -> Seq<char> {
    "The username is taken."@
}

pub open spec fn unhashed_message() -> Seq<char> {
    "The password could not be hashed."@
}

/// Signs `username` up with `password`, stored as an Argon2 hash under `id`.
/// A taken username is refused; a free one fails only where the hash could
/// not be made. A refusal changes nothing; after a success the password logs
/// the user in.
pub fn singup(users: &mut UserDirectory, id: u128, username: &str, password: &str) -> (r: Result<(), AuthError>)
    requires
        old(users).wf(),
    ensures
        final(users).wf(),
        has_user(old(users)@, username@) ==> (r matches Err(AuthError::Unexpected(m)) && m@
            == taken_message()),
        !has_user(old(users)@, username@) && r is Err ==> (r matches Err(AuthError::Unexpected(m))
            && m@ == unhashed_message()),
        r is Err ==> final(users)@ == old(users)@,
        r is Ok ==> !has_user(old(users)@, username@) && exists|h: Seq<char>|
            final(users)@ == #[trigger] old(users)@.push(UserView { id, username: username@, password_hash: h }),
        r is Ok ==> login_accepts(hash_of(final(users)@, username@), password@),
{
    if users.password_hash(username).is_some() {
        return Err(AuthError::Unexpected(String::from_str("The username is taken.")));
    }
    let hash = match argon2_hash(password) {
        Some(h) => h,
        None => return Err(AuthError::Unexpected(String::from_str("The password could not be hashed."))),
    };
    let ghost h = hash@;
    let ghost before = users@;
    let added = users.insert(id, username, hash);
    assert(added);
    proof {
        let after = users@;
        let n = before.len() as int;
        assert(after[n].username == username@);
        assert(has_user(after, username@));
        let k = choose|k: int| 0 <= k < after.len() && (#[trigger] after[k]).username == username@;
        if k < n {
            assert(after[k] == before[k]);
            assert(has_user(before, username@));
        }
        assert(hash_of(after, username@) == Some(h));
    }
    Ok(())
}

} // verus!
