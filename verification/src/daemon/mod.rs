//! The daemon: what it is asked, what it keeps, and what it answers.

use vstd::prelude::*;

pub mod approval_laws;
pub mod client;
pub mod event_laws;
pub mod events;
pub mod handlers;
pub mod lock;
pub mod lock_laws;
pub mod protocol;
pub mod readback_laws;
pub mod request_laws;
pub mod runtime;
pub mod service_laws;
pub mod transcripts;
pub mod wire_laws;

verus! {

/// Where a workspace's daemon is found and what it keeps.
#[derive(Debug, PartialEq, Eq)]
pub struct DaemonPaths {
    pub workspace_root: String,
    pub workspace_id: String,
    pub socket_path: String,
    pub lock_path: String,
    pub ledger_path: String,
}

/// Where the daemon of a workspace is found where nothing else is said.
#[derive(Debug, PartialEq, Eq)]
pub struct DefaultPaths {
    pub socket_path: String,
    pub lock_path: String,
    pub ledger_path: String,
}

impl DaemonPaths {
    /// The paths of a workspace, given by its resolved root; only the socket can be chosen.
    pub fn resolve(
        workspace_root: String,
        workspace_id: String,
        socket_path: Option<String>,
        defaults: DefaultPaths,
    ) -> (result: Self)
        ensures
            result == (DaemonPaths {
                workspace_root,
                workspace_id,
                socket_path: match socket_path {
                    Some(path) => path,
                    None => defaults.socket_path,
                },
                lock_path: defaults.lock_path,
                ledger_path: defaults.ledger_path,
            }),
    {
        DaemonPaths {
            workspace_root,
            workspace_id,
            socket_path: socket_path.unwrap_or(defaults.socket_path),
            lock_path: defaults.lock_path,
            ledger_path: defaults.ledger_path,
        }
    }

    /// The ledger that every run of the workspace writes to.
    pub fn default_ledger(&self) -> (result: String)
        ensures
            result == self.ledger_path,
    {
        self.ledger_path.clone()
    }
}

} // verus!
