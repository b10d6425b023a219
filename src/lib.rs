//! Double opt-in newsletter subscriptions: validation of subscriber input,
//! confirmation tokens, the subscriber store, the subscription state machine
//! and the fan-out of a broadcast to confirmed subscribers.
use vstd::prelude::*;

pub mod text;
pub mod email;
pub mod subscribe;
pub mod store;
pub mod laws;
pub mod publish;
pub mod config;
pub mod auth;

verus! {

/// Input that subscriber validation refuses.
#[derive(Debug, Clone, Copy, PartialEq, Eq, Structural)]
pub enum ValidationError {
    InvalidName,
    InvalidEmail,
}

impl ValidationError {
    /// The text shown to the client.
    pub fn message(&self) -> (r: String)
        ensures
            *self == ValidationError::InvalidName ==> r@ == "The given name is invalid, it must be non-empty, not longer than 256 characters, and not containing the following characters '/', '(', ')', '\"', '<', '>', '\\', '}', '{'."@,
            *self == ValidationError::InvalidEmail ==> r@ == "The given email is invalid."@,
    {
        match self {
            ValidationError::InvalidName => String::from_str("The given name is invalid, it must be non-empty, not longer than 256 characters, and not containing the following characters '/', '(', ')', '\"', '<', '>', '\\', '}', '{'."),
            ValidationError::InvalidEmail => String::from_str("The given email is invalid."),
        }
    }
}

/// Why account authentication failed.
#[derive(Debug)]
pub enum AuthError {
    UserNotFound,
    IncorrectPassword,
    Unexpected(String),
}

impl AuthError {
    /// The text shown to the client.
    pub fn message(&self) -> (r: String)
        ensures
            self is UserNotFound ==> r@ == "No such user is found"@,
            self is IncorrectPassword ==> r@ == "Password does not match"@,
            self matches AuthError::Unexpected(m) ==> r@ == m@,
    {
        match self {
            AuthError::UserNotFound => String::from_str("No such user is found"),
            AuthError::IncorrectPassword => String::from_str("Password does not match"),
            AuthError::Unexpected(m) => m.clone(),
        }
    }
}

/// A failed request: refused authentication, or a fault with its message.
#[derive(Debug)]
pub enum ServerError {
    Auth(AuthError),
    Unexpected(String),
}

impl ServerError {
    /// A fault described by `message`.
    pub fn unexpected(message: String) -> (r: ServerError)
        ensures
            r matches ServerError::Unexpected(m) && m@ == message@,
    {
        ServerError::Unexpected(message)
    }

    /// The HTTP status that answers this error.
    pub fn status(&self) -> (r: u16)
        ensures
            self is Auth ==> r == 401,
            self is Unexpected ==> r == 500,
    {
        match self {
            ServerError::Auth(_) => 401,
            ServerError::Unexpected(_) => 500,
        }
    }

    /// The text shown to the client.
    pub fn message(&self) -> (r: String)
        ensures
            self matches ServerError::Auth(a) ==> (a is UserNotFound ==> r@ == "No such user is found"@)
                && (a is IncorrectPassword ==> r@ == "Password does not match"@)
                && (a matches AuthError::Unexpected(m) ==> r@ == m@),
            self matches ServerError::Unexpected(m) ==> r@ == m@,
    {
        match self {
            ServerError::Auth(a) => a.message(),
            ServerError::Unexpected(m) => m.clone(),
        }
    }
}

} // verus!
