//! Remote-control enrollment state and socket bookkeeping; this build keeps
//! no enrollment state.
use std::sync::Arc;
use vstd::prelude::*;

verus! {

/// A remote-control enrollment as the state database records it.
#[derive(Debug, Clone, PartialEq)]
pub struct RemoteControlEnrollmentRecord {
    pub websocket_url: String,
    pub account_id: String,
    pub app_server_client_name: Option<String>,
    pub server_id: String,
    pub environment_id: String,
    pub server_name: String,
    pub remote_control_enabled: Option<bool>,
}

/// The state database runtime; all persistence calls do nothing.
#[derive(Debug, Clone, Copy)]
pub struct StateRuntime;

impl StateRuntime {
    /// Opens the database: a shared handle, always.
    pub fn init(codex_home: std::path::PathBuf, provider: String) -> (r: Result<Arc<Self>, String>)
        ensures
            r is Ok,
    {
        Ok(Arc::new(StateRuntime))
    }

    /// No enrollment is ever found.
    pub fn get_remote_control_enrollment(
        &self,
        websocket_url: &str,
        account_id: &str,
        app_server_client_name: Option<&str>,
    ) -> (r: Result<Option<RemoteControlEnrollmentRecord>, String>)
        ensures
            r matches Ok(None),
    {
        Ok(None)
    }

    /// Accepts and drops the record.
    pub fn upsert_remote_control_enrollment(&self, record: &RemoteControlEnrollmentRecord) -> (r:
        Result<(), String>)
        ensures
            r is Ok,
    {
        Ok(())
    }

    /// Deletes nothing: zero rows.
    pub fn delete_remote_control_enrollment(
        &self,
        websocket_url: &str,
        account_id: &str,
        app_server_client_name: Option<&str>,
    ) -> (r: Result<u64, String>)
        ensures
            r matches Ok(0),
    {
        Ok(0)
    }

    /// Updates nothing: zero rows.
    pub fn set_remote_control_enabled(
        &self,
        websocket_url: &str,
        account_id: &str,
        app_server_client_name: Option<&str>,
        enabled: bool,
    ) -> (r: Result<u64, String>)
        ensures
            r matches Ok(0),
    {
        Ok(0)
    }
}

/// Whether a socket path is stale, from what the file system says of it:
/// a path that exists but is not a socket is stale, and so is a socket that
/// no longer has a listener (connecting to it was refused); a missing path
/// and a socket with a listener are not.
pub fn socket_path_is_stale(exists: bool, is_socket: bool, connection_refused: bool) -> (r: bool)
    ensures
        r == (exists && (!is_socket || connection_refused)),
{
    exists && (!is_socket || connection_refused)
}

} // verus!
