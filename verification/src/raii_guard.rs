//! A resource guard: operations on a network connection succeed only
//! while the guard still holds it, and fail with a distinguished error
//! value once it is released.

use vstd::prelude::*;

verus! {

/// The one failure the guard surfaces: an operation attempted after the
/// connection was released.
#[derive(Clone, Copy, Debug, PartialEq, Eq, Structural)]
pub enum ConnectionError {
    Closed,
}

struct NetworkConnection {
    connected: bool,
}

impl NetworkConnection {
    fn connect() -> (c: Self)
        ensures
            c.connected,
    {
        NetworkConnection { connected: true }
    }

    fn send_data(&self, data: &str) -> (r: Result<(), ConnectionError>)
        ensures
            r is Ok <==> self.connected,
            !self.connected ==> r == Err::<(), ConnectionError>(ConnectionError::Closed),
    {
        if self.connected {
            let _ = data;
            Ok(())
        } else {
            Err(ConnectionError::Closed)
        }
    }

    fn close(&mut self)
        ensures
            !final(self).connected,
    {
        self.connected = false;
    }
}

/// Holds a connection for a scope: sends succeed exactly while the guard
/// is open, and `close` releases the connection for good.
pub struct ConnectionGuard {
    network: Option<NetworkConnection>,
}

impl ConnectionGuard {
    /// Whether the guard still holds a live connection.
    pub closed spec fn is_open(&self) -> bool {
        self.network is Some && self.network->0.connected
    }

    /// Acquires a fresh connection.
    pub fn new() -> (g: Self)
        ensures
            g.is_open(),
    {
        ConnectionGuard { network: Some(NetworkConnection::connect()) }
    }

    /// Succeeds exactly while the guard is open; after release every
    /// send fails with `Closed`.
    pub fn send_data(&self, data: &str) -> (r: Result<(), ConnectionError>)
        ensures
            r is Ok <==> self.is_open(),
            !self.is_open() ==> r == Err::<(), ConnectionError>(ConnectionError::Closed),
    {
        match &self.network {
            Some(network) => network.send_data(data),
            None => Err(ConnectionError::Closed),
        }
    }

    /// Releases the connection; releasing an already released guard is
    /// harmless.
    pub fn close(&mut self)
        ensures
            !final(self).is_open(),
    {
        match self.network.take() {
            Some(mut network) => network.close(),
            None => (),
        }
    }
}

impl Drop for ConnectionGuard {
    /// Releases the connection when the guard leaves its scope, whether
    /// or not it was closed by hand first.
    fn drop(&mut self)
        ensures
            !final(self).is_open(),
        opens_invariants none
        no_unwind
    {
        self.network = None;
    }
}

} // verus!
