//! How a request ends when it yields no result.

use crate::text::optional_text;
use vstd::prelude::*;

verus! {

/// The request succeeded.
pub const STATUS_OK: u16 = 200;

/// The request created what it was asked to.
pub const STATUS_CREATED: u16 = 201;

/// The request cannot be served as it was put.
pub const STATUS_BAD_REQUEST: u16 = 400;

/// The request does not say who makes it, or says so in a form that cannot
/// be read.
pub const STATUS_UNAUTHORIZED: u16 = 401;

/// The caller may not do what was asked.
pub const STATUS_FORBIDDEN: u16 = 403;

/// What was asked for does not exist.
pub const STATUS_NOT_FOUND: u16 = 404;

/// The store failed.
pub const STATUS_SERVER_ERROR: u16 = 500;

/// A request that ends without a result: the status to answer with and,
/// where there is one, the message to attach.
#[derive(Clone, Debug, PartialEq, Eq)]
pub struct Failure {
    pub status: u16,
    pub message: Option<String>,
}

/// The mathematical content of a [`Failure`].
pub struct FailureView {
    pub status: u16,
    pub message: Option<Seq<char>>,
}

impl View for Failure {
    type V = FailureView;

    open spec fn view(&self) -> FailureView {
        FailureView {
            status: self.status,
            message: optional_text(self.message),
        }
    }
}

/// An outcome whose failure is taken by its content.
pub open spec fn outcome_of<T>(outcome: Result<T, Failure>) -> Result<T, FailureView> {
    match outcome {
        Ok(value) => Ok(value),
        Err(failure) => Err(failure@),
    }
}

/// What the store reported of an operation that failed.
#[derive(Clone, Debug, PartialEq, Eq)]
pub struct StoreError {
    /// Whether the store failed only in that it found no such row.
    pub not_found: bool,
    /// The store's own words.
    pub message: String,
}

/// A server error that carries a message.
pub open spec fn server_error_of(message: Seq<char>) -> FailureView {
    FailureView { status: STATUS_SERVER_ERROR, message: Some(message) }
}

/// A bad request that carries a message.
pub open spec fn bad_request_of(message: Seq<char>) -> FailureView {
    FailureView { status: STATUS_BAD_REQUEST, message: Some(message) }
}

/// The failure of a request whose caller cannot be told: it says
/// "Unauthorized".
pub open spec fn unauthorized_of() -> FailureView {
    FailureView { status: STATUS_UNAUTHORIZED, message: Some("Unauthorized"@) }
}

/// A refusal, with or without a message.
pub open spec fn forbidden_of(message: Option<Seq<char>>) -> FailureView {
    FailureView { status: STATUS_FORBIDDEN, message }
}

/// The failure of a lookup by key: "not found", naming what was looked
/// for, where the store found no such row, and a server error with the
/// store's words for every other failure.
pub open spec fn lookup_failure_of(not_found: bool, message: Seq<char>, what: Seq<char>)
    -> FailureView {
    if not_found {
        FailureView { status: STATUS_NOT_FOUND, message: Some(what + " not found"@) }
    } else {
        server_error_of(message)
    }
}

/// The failure that answers a failed store operation: a server error with
/// the store's words, also where the store found no such row.
pub fn server_error(message: String) -> (failure: Failure)
    ensures
        failure@ == server_error_of(message@),
{
    Failure { status: STATUS_SERVER_ERROR, message: Some(message) }
}

/// The failure that answers a request which cannot be served as it was
/// put.
pub fn bad_request(message: String) -> (failure: Failure)
    ensures
        failure@ == bad_request_of(message@),
{
    Failure { status: STATUS_BAD_REQUEST, message: Some(message) }
}

/// The failure that answers a request whose caller cannot be told.
pub fn unauthorized() -> (failure: Failure)
    ensures
        failure@ == unauthorized_of(),
{
    Failure { status: STATUS_UNAUTHORIZED, message: Some(String::from_str("Unauthorized")) }
}

/// The failure that answers a caller who may not do what they asked.
pub fn forbidden(message: Option<String>) -> (failure: Failure)
    ensures
        failure@ == forbidden_of(optional_text(message)),
{
    Failure { status: STATUS_FORBIDDEN, message }
}

/// The failure that answers a lookup by key which the store could not
/// serve; `what` names the kind of thing looked for.
pub fn lookup_failure(error: StoreError, what: &str) -> (failure: Failure)
    ensures
        failure@ == lookup_failure_of(error.not_found, error.message@, what@),
{
    if error.not_found {
        let mut message = String::from_str(what);
        message.append(" not found");
        Failure { status: STATUS_NOT_FOUND, message: Some(message) }
    } else {
        server_error(error.message)
    }
}

} // verus!
