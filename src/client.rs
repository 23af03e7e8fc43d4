//! The handle that a successful bootstrap hands to the hosting process.

use vstd::prelude::*;

use crate::error::BootstrapError;

verus! {

/// The caller's side of an established channel to a running crash helper.
/// `C` is the type of the channel endpoint the caller keeps.
pub struct CrashHelperClient<C> {
    connector: C,
}

impl<C> CrashHelperClient<C> {
    /// The endpoint this client talks to the helper through.
    pub closed spec fn held(&self) -> C {
        self.connector
    }

    /// The client of a bootstrap whose spawn ended with `spawned`: it holds
    /// `connector` when the helper came up, else the spawn's error is
    /// returned unchanged.
    pub fn connected(connector: C, spawned: Result<(), BootstrapError>) -> (r: Result<
        CrashHelperClient<C>,
        BootstrapError,
    >)
        ensures
            r is Ok <==> spawned is Ok,
            r matches Ok(client) ==> client.held() == connector,
            spawned matches Err(e) ==> r matches Err(f) && f == e,
    {
        match spawned {
            Ok(()) => Ok(CrashHelperClient { connector }),
            Err(e) => Err(e),
        }
    }

    /// The endpoint this client talks to the helper through.
    pub fn connector(&self) -> (r: &C)
        ensures
            *r == self.held(),
    {
        &self.connector
    }

    /// Gives up the client, handing back its endpoint.
    pub fn into_connector(self) -> (r: C)
        ensures
            r == self.held(),
    {
        self.connector
    }
}

/// Whether a crash of the process with id `_pid` can be captured without further
/// preparation. On this platform none is needed: always `true`.
pub fn prepare_for_minidump(_pid: i32) -> (r: bool)
    ensures
        r,
{
    true
}

} // verus!
