//! Users: authentication against a stored password hash, and registration.

use vstd::prelude::*;
use crate::error::{AppError, InsertOutcome};

verus! {

/// What checking a password against a stored PHC hash string gives.
#[derive(Debug, Clone, Copy, PartialEq, Eq, Structural)]
pub enum PasswordCheck {
    /// The password matches the hash.
    Match,
    /// The hash was read, and the password does not match it.
    Mismatch,
    /// The hash string could not be read.
    Malformed,
}

/// What `password_auth::verify_password` decides for a password and a hash string.
pub uninterp spec fn password_check(password: Seq<char>, hash: Seq<char>) -> PasswordCheck;

/// Calls `password_auth::verify_password`, which parses `hash` as a PHC string and
/// verifies `password` against it: `Ok` is a match, `PasswordInvalid` a mismatch,
/// `Parse` an unreadable hash. The outcome is a function of the two strings; what it
/// is on given strings (Argon2, PBKDF2 or scrypt arithmetic) is left unsaid.
#[verifier::external_body]
fn check_password(password: &str, hash: &str) -> (r: PasswordCheck)
    ensures
        r == password_check(password@, hash@),
{
    match password_auth::verify_password(password, hash) {
        Ok(()) => PasswordCheck::Match,
        Err(password_auth::VerifyError::PasswordInvalid) => PasswordCheck::Mismatch,
        Err(password_auth::VerifyError::Parse(_)) => PasswordCheck::Malformed,
    }
}

/// Calls `password_auth::generate_hash`, which hashes `password` with Argon2 under a
/// fresh random salt and writes a PHC string. The salt is random, so the string is not
/// a function of the password; what is claimed is what the crate's own test checks:
/// the string verifies the password it was made from. The crate panics when Argon2
/// refuses the password, which it does for passwords longer than `u32::MAX` bytes
/// (excluded here), and when the operating system's random source fails (not excluded:
/// a fault of the machine).
#[verifier::external_body]
fn generate_hash(password: &str) -> (hash: String)
    requires
        password_bytes(password@) <= 0xffff_ffff,
    ensures
        password_check(password@, hash@) == PasswordCheck::Match,
{
    password_auth::generate_hash(password)
}

/// A user who has given a name and a password and has not been authenticated yet.
pub struct UnauthenticatedUser {
    username: String,
    password: String,
}

impl View for UnauthenticatedUser {
    /// The user name and the password.
    type V = (Seq<char>, Seq<char>);

    closed spec fn view(&self) -> (Seq<char>, Seq<char>) {
        (self.username@, self.password@)
    }
}

/// An authenticated user.
pub struct User {
    id: i64,
    username: String,
}

impl View for User {
    /// The account id and the user name.
    type V = (i64, Seq<char>);

    closed spec fn view(&self) -> (i64, Seq<char>) {
        (self.id, self.username@)
    }
}

/// A stored account, as the user table holds it.
pub struct UserRecord {
    pub id: i64,
    pub username: String,
    pub password_hash: String,
}

/// A new account to store: the name and the hash of the password.
pub struct NewUser {
    pub username: String,
    pub password_hash: String,
}

/// What a password check against the stored account `record` gives: the account on a
/// match, `InvalidCredentials` on a mismatch, `None` where the hash cannot be read.
pub open spec fn check_outcome(record: UserRecord, check: PasswordCheck) -> Option<
    Result<(i64, Seq<char>), AppError>,
> {
    match check {
        PasswordCheck::Match => Some(Ok((record.id, record.username@))),
        PasswordCheck::Mismatch => Some(Err(AppError::InvalidCredentials)),
        PasswordCheck::Malformed => None,
    }
}

/// What authenticating `user` against the stored account `record` gives:
/// `None` where the stored hash cannot be read.
pub open spec fn authentication(user: (Seq<char>, Seq<char>), record: Option<UserRecord>) -> Option<
    Result<(i64, Seq<char>), AppError>,
> {
    match record {
        None => Some(Err(AppError::UserDoesNotExist)),
        Some(rec) => check_outcome(rec, password_check(user.1, rec.password_hash@)),
    }
}

/// The view of an authentication result.
pub open spec fn user_result_view(r: Option<Result<User, AppError>>) -> Option<
    Result<(i64, Seq<char>), AppError>,
> {
    match r {
        None => None,
        Some(Ok(u)) => Some(Ok(u@)),
        Some(Err(e)) => Some(Err(e)),
    }
}

impl UnauthenticatedUser {
    /// A user with the given name and password.
    pub fn new(username: String, password: String) -> (r: Self)
        ensures
            r@ == (username@, password@),
    {
        Self { username, password }
    }

    /// The user name, under which the stored account is looked up.
    pub fn username(&self) -> (r: &String)
        ensures
            r@ == self@.0,
    {
        &self.username
    }

    /// Authenticates against `record`, the stored account with this user's name, if any.
    /// No account: `UserDoesNotExist`. A password that does not match the stored hash:
    /// `InvalidCredentials`. A match: the stored account as a `User`. `None` where the
    /// stored hash cannot be read, a fault of the store, not of the request.
    pub fn authenticate(&self, record: Option<UserRecord>) -> (r: Option<Result<User, AppError>>)
        ensures
            user_result_view(r) == authentication(self@, record),
    {
        match record {
            None => Some(Err(AppError::UserDoesNotExist)),
            Some(rec) => {
                let check = check_password(self.password.as_str(), rec.password_hash.as_str());
                checked_authentication(rec, check)
            },
        }
    }

    /// The account to store for this user: the name, and a fresh hash of the password,
    /// which verifies that password.
    pub fn register(self) -> (r: NewUser)
        requires
            password_bytes(self@.1) <= 0xffff_ffff,
        ensures
            r.username@ == self@.0,
            password_check(self@.1, r.password_hash@) == PasswordCheck::Match,
    {
        let hash = generate_hash(self.password.as_str());
        NewUser { username: self.username, password_hash: hash }
    }
}

/// What authentication gives once the password has been checked against the stored
/// account `record`: the account as a `User` on a match, `InvalidCredentials` on a
/// mismatch, `None` where the stored hash cannot be read.
pub fn checked_authentication(record: UserRecord, check: PasswordCheck) -> (r: Option<
    Result<User, AppError>,
>)
    ensures
        user_result_view(r) == check_outcome(record, check),
{
    match check {
        PasswordCheck::Match => Some(Ok(User::new(record.id, record.username))),
        PasswordCheck::Mismatch => Some(Err(AppError::InvalidCredentials)),
        PasswordCheck::Malformed => None,
    }
}

/// The number of bytes of the UTF-8 encoding of `s`.
pub open spec fn password_bytes(s: Seq<char>) -> nat {
    vstd::utf8::encode_utf8(s).len()
}

/// A registered account signs its user in: where the stored hash is the one that
/// registration made from the password, authenticating with that password gives the
/// stored account.
pub proof fn lemma_registered_user_signs_in(
    user: (Seq<char>, Seq<char>),
    registered: NewUser,
    stored: UserRecord,
)
    requires
        password_check(user.1, registered.password_hash@) == PasswordCheck::Match,
        stored.password_hash@ == registered.password_hash@,
    ensures
        authentication(user, Some(stored)) == Some(
            Ok::<(i64, Seq<char>), AppError>((stored.id, stored.username@)),
        ),
{
}

/// Only a matching password signs in: authentication succeeds exactly when the stored
/// hash verifies the password, and then gives the stored account.
pub proof fn lemma_sign_in_requires_match(user: (Seq<char>, Seq<char>), stored: UserRecord)
    ensures
        (authentication(user, Some(stored)) matches Some(Ok(v))) <==> password_check(
            user.1,
            stored.password_hash@,
        ) == PasswordCheck::Match,
        authentication(user, Some(stored)) matches Some(Ok(v)) ==> v == (
            stored.id,
            stored.username@,
        ),
{
}

/// What storing a new account gives: the stored account, or `UsernameTaken` when the
/// name is in use.
pub fn registration_result(outcome: InsertOutcome<UserRecord>) -> (r: Result<User, AppError>)
    ensures
        match outcome {
            InsertOutcome::Inserted(rec) => r matches Ok(u) && u@ == (rec.id, rec.username@),
            InsertOutcome::Duplicate => r matches Err(AppError::UsernameTaken),
        },
{
    match outcome {
        InsertOutcome::Inserted(rec) => Ok(User::new(rec.id, rec.username)),
        InsertOutcome::Duplicate => Err(AppError::UsernameTaken),
    }
}

impl User {
    /// The user with the given account id and name.
    pub fn new(id: i64, username: String) -> (r: Self)
        ensures
            r@ == (id, username@),
    {
        Self { id, username }
    }

    /// The user name.
    pub fn username(&self) -> (r: &String)
        ensures
            r@ == self@.1,
    {
        &self.username
    }

    /// The user name, given up by the user.
    pub fn into_username(self) -> (r: String)
        ensures
            r@ == self@.1,
    {
        self.username
    }

    /// The account id.
    pub fn id(&self) -> (r: i64)
        ensures
            r == self@.0,
    {
        self.id
    }
}

} // verus!
