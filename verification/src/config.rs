//! The persisted configuration record. The settings store that loads and
//! flushes it lives with the application; the controller's `enabled` and
//! `locked_uid` values are the fields persisted.

use vstd::prelude::*;

verus! {

/// What survives a restart: whether the lock is on, which stable UID is
/// pinned, and whether the application registers itself to start at login.
#[derive(Debug, Clone)]
pub struct Config {
    pub lock_enabled: bool,
    pub locked_uid: Option<String>,
    pub start_at_login: bool,
}

impl Default for Config {
    /// The configuration of a fresh installation: lock off, no device
    /// pinned, no autostart.
    fn default() -> (r: Self)
        ensures
            !r.lock_enabled,
            r.locked_uid is None,
            !r.start_at_login,
    {
        Config { lock_enabled: false, locked_uid: None, start_at_login: false }
    }
}

} // verus!
