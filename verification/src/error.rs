//! The errors that the application's rules produce.

use vstd::prelude::*;

verus! {

/// An error of the application's rules, as the HTTP layer reports it to the client.
#[derive(Debug)]
pub enum AppError {
    /// No account has the given user name.
    UserDoesNotExist,
    /// The password does not match the stored hash.
    InvalidCredentials,
    /// Another account already has the user name.
    UsernameTaken,
    /// The request's data broke an input rule; the text says which.
    InvalidInput(String),
    /// No asset has the given id.
    AssetDoesNotExist,
    /// The request carries no session token.
    MissingAuthorization,
}

/// Whether `r` is the input error with the text `message`.
pub open spec fn is_invalid_input<T>(r: Result<T, AppError>, message: Seq<char>) -> bool {
    r matches Err(AppError::InvalidInput(m)) && m@ == message
}

/// The result of storing a new row under a unique name.
pub enum InsertOutcome<T> {
    /// The row was stored, and reads back as this value.
    Inserted(T),
    /// The unique name is already in use.
    Duplicate,
}

} // verus!
