//! Connection parameters and the health decisions a generic connection pool
//! needs from its manager.
//!
//! A pooled connection is judged healthy by the pending-error state of the
//! socket behind it, not by a protocol round-trip: the channel is local, so a
//! dead peer shows up as a socket error rather than as a silent hang. A
//! connection whose socket reports any pending error is declared unhealthy
//! and is never reused.

use vstd::prelude::*;

verus! {

/// Failure while creating or validating a pooled connection.
#[derive(Debug)]
pub enum Error {
    /// The socket could not be connected.
    Connect(crate::socket::Error),
    /// The socket behind an established connection reported a pending error.
    SocketError(std::io::Error),
}

/// Immutable connection parameters: socket path and channel buffer sizes.
/// Built once from validated configuration and cloned freely.
#[derive(Clone, Debug, PartialEq, Eq)]
pub struct ConnectionProperties {
    pub socket: String,
    pub buffer_size: usize,
    pub max_buffer_size: usize,
}

impl ConnectionProperties {
    /// Bundles a socket path with the channel's buffer sizes.
    pub fn new(socket: String, buffer_size: usize, max_buffer_size: usize) -> (r: Self)
        ensures
            r.socket == socket,
            r.buffer_size == buffer_size,
            r.max_buffer_size == max_buffer_size,
    {
        Self { socket, buffer_size, max_buffer_size }
    }
}

/// Decides, for a generic connection pool, whether a connection may be
/// created, reused, or must be retired. The pending-error state of the
/// connection's socket is handed in by whoever owns the socket.
#[derive(Clone, Debug)]
pub struct ConnectionManager {
    pub opts: ConnectionProperties,
}

impl ConnectionManager {
    /// A manager for connections to the endpoint that `opts` describes.
    pub fn new(opts: ConnectionProperties) -> (r: Self)
        ensures
            r.opts == opts,
    {
        Self { opts }
    }

    /// Validation before a connection is handed to a caller: the connection
    /// passes exactly when its socket reports no pending error. Both a
    /// reported pending error and a failure of the query itself mark the
    /// connection unhealthy, and the offending error is carried out.
    pub fn is_valid(&self, pending: Result<Option<std::io::Error>, std::io::Error>) -> (r: Result<
        (),
        Error,
    >)
        ensures
            r is Ok <==> pending matches Ok(None),
            pending matches Ok(Some(err)) ==> r == Err::<(), Error>(Error::SocketError(err)),
            pending matches Err(err) ==> r == Err::<(), Error>(Error::SocketError(err)),
    {
        match pending {
            Ok(None) => Ok(()),
            Ok(Some(err)) => Err(Error::SocketError(err)),
            Err(err) => Err(Error::SocketError(err)),
        }
    }

    /// The pool's opportunistic health sweep: a connection counts as broken
    /// exactly when its socket reports any pending error, or the query
    /// itself fails.
    pub fn has_broken(&self, pending: Result<Option<std::io::Error>, std::io::Error>) -> (r: bool)
        ensures
            r <==> !(pending matches Ok(None)),
    {
        match pending {
            Ok(None) => false,
            Ok(Some(_)) => true,
            Err(_) => true,
        }
    }
}

} // verus!
