//! Connect-retry policy for the local domain socket.
//!
//! Opening the socket is I/O and lives outside the library; the decision of
//! whether a failed attempt is retried or surfaced is made here. An attempt
//! is retried exactly while the endpoint does not exist yet or actively
//! refuses connections (a client may start before its server is ready, or
//! race a server restart); any other failure is permanent and is returned at
//! once, so that a caller is never hung forever on a permanent error.

use vstd::prelude::*;

verus! {

/// How long the connector waits between attempts, in milliseconds.
pub const RETRY_DELAY_MS: u64 = 100;

/// Failure to obtain a socket connection.
#[derive(Debug)]
pub enum Error {
    /// The connect attempt failed for a reason that waiting cannot cure.
    Wait(std::io::Error),
}

/// The classes of connect failure that the retry policy distinguishes.
/// Whoever performs the connect derives the class from the attempt's
/// I/O error kind.
#[derive(Clone, Copy, Debug, PartialEq, Eq, Structural)]
pub enum ErrorClass {
    /// The socket path does not exist yet.
    NotFound,
    /// The endpoint exists but actively refused the connection.
    ConnectionRefused,
    /// Any other I/O failure.
    Other,
}

/// What the connector does after a failed attempt.
#[derive(Clone, Copy, Debug, PartialEq, Eq, Structural)]
pub enum RetryDecision {
    /// Wait `RETRY_DELAY_MS` milliseconds and try again.
    Retry,
    /// Give up and surface the error.
    Fail,
}

/// A failed connect attempt is retried exactly when the endpoint is absent
/// or refusing connections; every other failure class gives up at once.
pub fn retry_decision(class: ErrorClass) -> (d: RetryDecision)
    ensures
        d is Retry <==> (class is NotFound || class is ConnectionRefused),
{
    match class {
        ErrorClass::NotFound => RetryDecision::Retry,
        ErrorClass::ConnectionRefused => RetryDecision::Retry,
        ErrorClass::Other => RetryDecision::Fail,
    }
}

} // verus!
