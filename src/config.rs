//! Fixed settings of the service, and the error of a failed start-up.
use vstd::prelude::*;

verus! {

/// Port the service listens on.
pub const PORT: u16 = 8080;

/// Size of the database connection pool.
pub const MAX_CONNECTIONS: u32 = 5;

/// Upper bound, in seconds, on one request.
pub const REQUEST_TIMEOUT_SECS: u64 = 30;

/// Start-up failed: a setting is missing or the database is unreachable.
pub struct ConfigError {
    msg: String,
}

impl ConfigError {
    pub fn new(msg: &str) -> (r: ConfigError)
        ensures
            r.message_view() == msg@,
    {
        ConfigError { msg: String::from_str(msg) }
    }

    pub closed spec fn message_view(&self) -> Seq<char> {
        self.msg@
    }

    pub fn message(&self) -> (r: &str)
        ensures
            r@ == self.message_view(),
    {
        self.msg.as_str()
    }
}

} // verus!
