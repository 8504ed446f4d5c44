//! What is known of a session.

use vstd::prelude::*;

use crate::freshness::fresh;
use crate::freshness::keep_fresh;
use crate::store::Store;

verus! {

/// PrivilegedActionTaken requires a SessionHeartbeat within this many seconds.
pub const HEARTBEAT_WINDOW: u64 = 30;

/// PrivilegedActionTaken requires an IdentityVerified within this many seconds.
pub const IDENTITY_WINDOW: u64 = 300;

#[derive(Debug, Clone, Copy, PartialEq, Eq, Structural)]
pub struct SessionState {
    pub last_heartbeat_at: Option<u64>,
    pub last_identity_at: Option<u64>,
    pub last_resource_at: Option<u64>,
    pub privileged_count: usize,
}

impl View for SessionState {
    type V = SessionState;

    open spec fn view(&self) -> SessionState {
        *self
    }
}

impl Default for SessionState {
    fn default() -> (r: Self)
        ensures
            r == Self::blank(),
    {
        SessionState {
            last_heartbeat_at: None,
            last_identity_at: None,
            last_resource_at: None,
            privileged_count: 0,
        }
    }
}

impl SessionState {
    /// What is known of a session that no event has mentioned.
    pub open spec fn blank() -> SessionState {
        SessionState {
            last_heartbeat_at: None,
            last_identity_at: None,
            last_resource_at: None,
            privileged_count: 0,
        }
    }

    /// The last heartbeat still counts at `ts`.
    pub open spec fn alive(self, ts: u64) -> bool {
        fresh(self.last_heartbeat_at, ts, HEARTBEAT_WINDOW) is Some
    }

    /// The last verification of the identity still counts at `ts`.
    pub open spec fn verified(self, ts: u64) -> bool {
        fresh(self.last_identity_at, ts, IDENTITY_WINDOW) is Some
    }

    pub fn heartbeat_fresh(&self, ts: u64) -> (r: bool)
        ensures
            r == self.alive(ts),
    {
        keep_fresh(self.last_heartbeat_at, ts, HEARTBEAT_WINDOW).is_some()
    }

    pub fn identity_fresh(&self, ts: u64) -> (r: bool)
        ensures
            r == self.verified(ts),
    {
        keep_fresh(self.last_identity_at, ts, IDENTITY_WINDOW).is_some()
    }

    pub fn has_resource_access(&self) -> (r: bool)
        ensures
            r == (self.last_resource_at is Some),
    {
        self.last_resource_at.is_some()
    }
}

pub type SessionStore = Store<SessionState>;

} // verus!
