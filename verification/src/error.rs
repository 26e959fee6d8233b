use vstd::prelude::*;

verus! {

/// Canonical domain error type shared across the domain modules. Each
/// variant carries a human-readable message.
#[derive(Debug, Clone, PartialEq, Eq)]
pub enum DomainError {
    Validation(String),
    InvalidTransition(String),
    NotFound(String),
    AlreadyExists(String),
}

impl DomainError {
    /// A `Validation` error carrying `message`.
    pub fn validation(message: String) -> (e: DomainError)
        ensures
            e == DomainError::Validation(message),
    {
        DomainError::Validation(message)
    }

    /// An `InvalidTransition` error carrying `message`.
    pub fn invalid_transition(message: String) -> (e: DomainError)
        ensures
            e == DomainError::InvalidTransition(message),
    {
        DomainError::InvalidTransition(message)
    }

    /// The message carried by any variant.
    pub open spec fn message(self) -> Seq<char> {
        match self {
            DomainError::Validation(m) => m@,
            DomainError::InvalidTransition(m) => m@,
            DomainError::NotFound(m) => m@,
            DomainError::AlreadyExists(m) => m@,
        }
    }
}

/// `r` failed with a `Validation` error carrying `msg`.
pub open spec fn fails_validation<T>(r: Result<T, DomainError>, msg: Seq<char>) -> bool {
    match r {
        Err(e) => e is Validation && e.message() == msg,
        Ok(_) => false,
    }
}

/// `r` failed with an `InvalidTransition` error carrying `msg`.
pub open spec fn fails_transition<T>(r: Result<T, DomainError>, msg: Seq<char>) -> bool {
    match r {
        Err(e) => e is InvalidTransition && e.message() == msg,
        Ok(_) => false,
    }
}

/// `r` failed with a `NotFound` error carrying `msg`.
pub open spec fn fails_not_found<T>(r: Result<T, DomainError>, msg: Seq<char>) -> bool {
    match r {
        Err(e) => e is NotFound && e.message() == msg,
        Ok(_) => false,
    }
}

/// `r` failed with an `AlreadyExists` error carrying `msg`.
pub open spec fn fails_already_exists<T>(r: Result<T, DomainError>, msg: Seq<char>) -> bool {
    match r {
        Err(e) => e is AlreadyExists && e.message() == msg,
        Ok(_) => false,
    }
}

/// A `Validation` error whose message is the literal `text`.
pub fn validation_error(text: &str) -> (e: DomainError)
    ensures
        e is Validation,
        e.message() == text@,
{
    DomainError::Validation(text.to_owned())
}

/// An `InvalidTransition` error whose message is the literal `text`.
pub fn transition_error(text: &str) -> (e: DomainError)
    ensures
        e is InvalidTransition,
        e.message() == text@,
{
    DomainError::InvalidTransition(text.to_owned())
}

/// A `NotFound` error whose message is the literal `text`.
pub fn not_found_error(text: &str) -> (e: DomainError)
    ensures
        e is NotFound,
        e.message() == text@,
{
    DomainError::NotFound(text.to_owned())
}

/// An `AlreadyExists` error whose message is the literal `text`.
pub fn already_exists_error(text: &str) -> (e: DomainError)
    ensures
        e is AlreadyExists,
        e.message() == text@,
{
    DomainError::AlreadyExists(text.to_owned())
}

/// The text `prefix` followed by `suffix`, as an owned string.
pub fn join_text(prefix: &str, suffix: &str) -> (s: String)
    ensures
        s@ == prefix@ + suffix@,
{
    prefix.to_owned().concat(suffix)
}

} // verus!
