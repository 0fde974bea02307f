use std::sync::PoisonError;
use std::time::SystemTimeError;
use argon2::Error as Argon2Error;
use rusqlite::Error as SqliteError;
use serde_json::Error as JsonError;
use vstd::prelude::*;
use vstd::std_specs::convert::FromSpecImpl;

verus! {

#[verifier::external_type_specification]
#[verifier::external_body]
pub struct ExSystemTimeError(SystemTimeError);

#[verifier::external_type_specification]
#[verifier::external_body]
pub struct ExRusqliteError(SqliteError);

#[verifier::external_type_specification]
#[verifier::external_body]
pub struct ExArgon2Error(Argon2Error);

#[verifier::external_type_specification]
#[verifier::external_body]
pub struct ExSerdeJsonError(JsonError);

#[verifier::external_type_specification]
#[verifier::external_body]
#[verifier::reject_recursive_types(T)]
pub struct ExPoisonError<T>(PoisonError<T>);

/// Everything that can go wrong while managing users and their sessions.
#[derive(Debug)]
pub enum Error {
    InvalidEmailAddressError,
    EmailAlreadyExists,
    MutexPoisonError,
    SystemTimeError(SystemTimeError),
    UserNotFoundError,
    RusqliteError(SqliteError),
    Argon2ParsingError(Argon2Error),
    Unspecified,
    QueryError,
    UnmanagedStateError,
    FormValidationError,
    UnauthenticatedError,
    InvalidCredentialsError,
    UnsafePasswordTooShort,
    UnsafePasswordHasNoDigit,
    UnsafePasswordHasNoUpper,
    UnsafePasswordHasNoLower,
    UnauthorizedError,
    SerdeError(JsonError),
}

/// The text a client may be shown for an error: the description of the
/// errors caused by what the client sent, and `undefined` for every error
/// that concerns the server alone.
pub open spec fn client_message(e: Error) -> Seq<char> {
    match e {
        Error::InvalidEmailAddressError => "That is not a valid email address"@,
        Error::InvalidCredentialsError => "Incorrect email or password"@,
        Error::EmailAlreadyExists => "That email address already exists, try logging in"@,
        Error::UnauthorizedError => "Incorrect email or password"@,
        Error::UserNotFoundError => "Could not find any user that fits the specified requirements"@,
        Error::UnsafePasswordTooShort => "The password must be at least 8 characters long"@,
        Error::UnsafePasswordHasNoDigit => "The password must include a digit"@,
        Error::UnsafePasswordHasNoLower => "The password must include a lower case character"@,
        Error::UnsafePasswordHasNoUpper => "The password must include an upper case character"@,
        _ => "undefined"@,
    }
}

impl Error {
    /// The body of the response sent to the client for this error.
    pub fn message(&self) -> (s: String)
        ensures
            s@ == client_message(*self),
    {
        match self {
            Error::InvalidEmailAddressError => "That is not a valid email address".to_owned(),
            Error::InvalidCredentialsError => "Incorrect email or password".to_owned(),
            Error::EmailAlreadyExists => "That email address already exists, try logging in".to_owned(),
            Error::UnauthorizedError => "Incorrect email or password".to_owned(),
            Error::UserNotFoundError => "Could not find any user that fits the specified requirements".to_owned(),
            Error::UnsafePasswordTooShort => "The password must be at least 8 characters long".to_owned(),
            Error::UnsafePasswordHasNoDigit => "The password must include a digit".to_owned(),
            Error::UnsafePasswordHasNoLower => "The password must include a lower case character".to_owned(),
            Error::UnsafePasswordHasNoUpper => "The password must include an upper case character".to_owned(),
            _ => "undefined".to_owned(),
        }
    }
}

impl<T> From<PoisonError<T>> for Error {
    fn from(_error: PoisonError<T>) -> (e: Error) {
        Error::MutexPoisonError
    }
}

impl<T> FromSpecImpl<PoisonError<T>> for Error {
    open spec fn obeys_from_spec() -> bool {
        true
    }

    open spec fn from_spec(v: PoisonError<T>) -> Error {
        Error::MutexPoisonError
    }
}

impl From<()> for Error {
    fn from(_unit: ()) -> (e: Error) {
        Error::Unspecified
    }
}

impl FromSpecImpl<()> for Error {
    open spec fn obeys_from_spec() -> bool {
        true
    }

    open spec fn from_spec(v: ()) -> Error {
        Error::Unspecified
    }
}

impl From<SystemTimeError> for Error {
    fn from(source: SystemTimeError) -> (e: Error) {
        Error::SystemTimeError(source)
    }
}

impl FromSpecImpl<SystemTimeError> for Error {
    open spec fn obeys_from_spec() -> bool {
        true
    }

    open spec fn from_spec(v: SystemTimeError) -> Error {
        Error::SystemTimeError(v)
    }
}

impl From<SqliteError> for Error {
    fn from(source: SqliteError) -> (e: Error) {
        Error::RusqliteError(source)
    }
}

impl FromSpecImpl<SqliteError> for Error {
    open spec fn obeys_from_spec() -> bool {
        true
    }

    open spec fn from_spec(v: SqliteError) -> Error {
        Error::RusqliteError(v)
    }
}

impl From<Argon2Error> for Error {
    fn from(source: Argon2Error) -> (e: Error) {
        Error::Argon2ParsingError(source)
    }
}

impl FromSpecImpl<Argon2Error> for Error {
    open spec fn obeys_from_spec() -> bool {
        true
    }

    open spec fn from_spec(v: Argon2Error) -> Error {
        Error::Argon2ParsingError(v)
    }
}

impl From<JsonError> for Error {
    fn from(source: JsonError) -> (e: Error) {
        Error::SerdeError(source)
    }
}

impl FromSpecImpl<JsonError> for Error {
    open spec fn obeys_from_spec() -> bool {
        true
    }

    open spec fn from_spec(v: JsonError) -> Error {
        Error::SerdeError(v)
    }
}

} // verus!
