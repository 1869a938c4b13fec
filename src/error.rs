//! Error taxonomy: what the workflow reports, and how it reaches the HTTP layer.
use vstd::prelude::*;

verus! {

pub const STATUS_BAD_REQUEST: u16 = 400;

pub const STATUS_UNAUTHORIZED: u16 = 401;

pub const STATUS_FORBIDDEN: u16 = 403;

pub const STATUS_NOT_FOUND: u16 = 404;

pub const STATUS_REQUEST_TIMEOUT: u16 = 408;

pub const STATUS_SERVER_ERROR: u16 = 500;

/// An error as the HTTP layer reports it: a status code and a message.
pub struct APIError {
    pub status: u16,
    pub msg: String,
}

impl APIError {
    pub fn new(status: u16, msg: &str) -> (r: APIError)
        ensures
            r.status == status,
            r.msg@ == msg@,
    {
        APIError { status, msg: String::from_str(msg) }
    }

    pub fn server() -> (r: APIError)
        ensures
            r.status == STATUS_SERVER_ERROR,
            r.msg@ == "Something went wrong"@,
    {
        APIError::new(STATUS_SERVER_ERROR, "Something went wrong")
    }

    pub fn bad(msg: &str) -> (r: APIError)
        ensures
            r.status == STATUS_BAD_REQUEST,
            r.msg@ == msg@,
    {
        APIError::new(STATUS_BAD_REQUEST, msg)
    }

    pub fn not_found() -> (r: APIError)
        ensures
            r.status == STATUS_NOT_FOUND,
            r.msg@ == "Not found"@,
    {
        APIError::new(STATUS_NOT_FOUND, "Not found")
    }

    pub fn auth() -> (r: APIError)
        ensures
            r.status == STATUS_UNAUTHORIZED,
            r.msg@ == "Unauthorized"@,
    {
        APIError::new(STATUS_UNAUTHORIZED, "Unauthorized")
    }

    pub fn forbidden() -> (r: APIError)
        ensures
            r.status == STATUS_FORBIDDEN,
            r.msg@ == "Forbidden"@,
    {
        APIError::new(STATUS_FORBIDDEN, "Forbidden")
    }
}

/// The error that a failed middleware layer turns into: a timeout is reported as
/// such, anything else as a server error.
pub fn handle_api_error(timed_out: bool) -> (r: APIError)
    ensures
        timed_out ==> r.status == STATUS_REQUEST_TIMEOUT && r.msg@ == "Request timed out"@,
        !timed_out ==> r.status == STATUS_SERVER_ERROR && r.msg@ == "Something went wrong"@,
{
    if timed_out {
        APIError::new(STATUS_REQUEST_TIMEOUT, "Request timed out")
    } else {
        APIError::server()
    }
}

/// Failure of a store primitive.
#[derive(Clone, Copy, Debug, PartialEq, Eq, Structural)]
pub enum StoreError {
    /// A write affected fewer (or more) rows than it had to.
    NotFound,
    /// A unique constraint refused an insert.
    Conflict,
    /// The storage itself failed.
    Storage,
}

/// The outcome of a write that must affect exactly `expected` rows.
pub fn expect_rows(affected: u64, expected: u64) -> (r: Result<(), StoreError>)
    ensures
        affected == expected ==> r == Ok::<(), StoreError>(()),
        affected != expected ==> r == Err::<(), StoreError>(StoreError::NotFound),
{
    if affected == expected {
        Ok(())
    } else {
        Err(StoreError::NotFound)
    }
}

/// The outcome of a write that must affect at least one row.
pub fn expect_some_rows(affected: u64) -> (r: Result<(), StoreError>)
    ensures
        affected > 0 ==> r == Ok::<(), StoreError>(()),
        affected == 0 ==> r == Err::<(), StoreError>(StoreError::NotFound),
{
    if affected == 0 {
        Err(StoreError::NotFound)
    } else {
        Ok(())
    }
}

/// Why the workflow refused an operation before touching the store.
#[derive(Clone, Copy, Debug, PartialEq, Eq, Structural)]
pub enum Refusal {
    SelfReference,
    AlreadyConnected,
    RequestAlreadySent,
    RequestAlreadyReceived,
    NoRequestSent,
    NoRequestReceived,
    NotConnected,
    EmptyQuery,
    InvalidPage,
}

pub open spec fn refusal_message(r: Refusal) -> Seq<char> {
    match r {
        Refusal::SelfReference => "You cannot connect with yourself"@,
        Refusal::AlreadyConnected => "You are already connected with this user"@,
        Refusal::RequestAlreadySent => "You have already sent a connection request to this user"@,
        Refusal::RequestAlreadyReceived => "This user has already sent you a connection request"@,
        Refusal::NoRequestSent => "You have not sent a connection request to this user"@,
        Refusal::NoRequestReceived => "This user has not sent you a connection request"@,
        Refusal::NotConnected => "You are not connected with this user"@,
        Refusal::EmptyQuery => "Query parameter 'q' is required"@,
        Refusal::InvalidPage => "Page numbers start at 1"@,
    }
}

impl Refusal {
    pub fn message(&self) -> (r: &'static str)
        ensures
            r@ == refusal_message(*self),
    {
        match self {
            Refusal::SelfReference => "You cannot connect with yourself",
            Refusal::AlreadyConnected => "You are already connected with this user",
            Refusal::RequestAlreadySent => "You have already sent a connection request to this user",
            Refusal::RequestAlreadyReceived => "This user has already sent you a connection request",
            Refusal::NoRequestSent => "You have not sent a connection request to this user",
            Refusal::NoRequestReceived => "This user has not sent you a connection request",
            Refusal::NotConnected => "You are not connected with this user",
            Refusal::EmptyQuery => "Query parameter 'q' is required",
            Refusal::InvalidPage => "Page numbers start at 1",
        }
    }
}

/// How an operation of the workflow failed.
#[derive(Clone, Copy, Debug, PartialEq, Eq, Structural)]
pub enum Failure {
    /// A precondition does not hold; nothing was written.
    BadRequest(Refusal),
    /// The caller may not act on this resource (their own profile).
    Forbidden,
    /// A single write found no row to act on, or the row looked up is absent.
    NotFound,
    /// Storage failed, or a paired write went wrong and was rolled back.
    ServerError,
}

pub open spec fn failure_status(f: Failure) -> u16 {
    match f {
        Failure::BadRequest(_) => STATUS_BAD_REQUEST,
        Failure::Forbidden => STATUS_FORBIDDEN,
        Failure::NotFound => STATUS_NOT_FOUND,
        Failure::ServerError => STATUS_SERVER_ERROR,
    }
}

pub open spec fn failure_message(f: Failure) -> Seq<char> {
    match f {
        Failure::BadRequest(r) => refusal_message(r),
        Failure::Forbidden => "Forbidden"@,
        Failure::NotFound => "Not found"@,
        Failure::ServerError => "Something went wrong"@,
    }
}

impl StoreError {
    /// The failure reported when a lookup fails: an absent row is not found,
    /// anything else a server error.
    pub fn read_failure(&self) -> (r: Failure)
        ensures
            *self == StoreError::NotFound ==> r == Failure::NotFound,
            *self != StoreError::NotFound ==> r == Failure::ServerError,
    {
        match self {
            StoreError::NotFound => Failure::NotFound,
            _ => Failure::ServerError,
        }
    }
}

impl Failure {
    /// The error reported to the caller; storage detail never leaks into it.
    pub fn to_api_error(&self) -> (r: APIError)
        ensures
            r.status == failure_status(*self),
            r.msg@ == failure_message(*self),
    {
        match self {
            Failure::BadRequest(reason) => APIError::bad(reason.message()),
            Failure::Forbidden => APIError::forbidden(),
            Failure::NotFound => APIError::not_found(),
            Failure::ServerError => APIError::server(),
        }
    }
}

} // verus!
