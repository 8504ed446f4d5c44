//! The events of a session.

use vstd::prelude::*;

verus! {

#[derive(Debug, Clone, Copy, PartialEq, Eq, Structural)]
pub enum ZtnaEvent {
    SessionHeartbeat,
    IdentityVerified,
    ResourceAccessed,
    PrivilegedActionTaken,
}

impl ZtnaEvent {
    /// The name of the event.
    pub open spec fn label(self) -> Seq<char> {
        match self {
            ZtnaEvent::SessionHeartbeat => "SessionHeartbeat"@,
            ZtnaEvent::IdentityVerified => "IdentityVerified"@,
            ZtnaEvent::ResourceAccessed => "ResourceAccessed"@,
            ZtnaEvent::PrivilegedActionTaken => "PrivilegedActionTaken"@,
        }
    }

    /// The style class under which the event is shown.
    pub open spec fn style(self) -> Seq<char> {
        match self {
            ZtnaEvent::SessionHeartbeat => "ev-hb"@,
            ZtnaEvent::IdentityVerified => "ev-id"@,
            ZtnaEvent::ResourceAccessed => "ev-res"@,
            ZtnaEvent::PrivilegedActionTaken => "ev-priv"@,
        }
    }

    pub fn name(&self) -> (r: &'static str)
        ensures
            r@ == self.label(),
    {
        match self {
            Self::SessionHeartbeat => "SessionHeartbeat",
            Self::IdentityVerified => "IdentityVerified",
            Self::ResourceAccessed => "ResourceAccessed",
            Self::PrivilegedActionTaken => "PrivilegedActionTaken",
        }
    }

    pub fn css_class(&self) -> (r: &'static str)
        ensures
            r@ == self.style(),
    {
        match self {
            Self::SessionHeartbeat => "ev-hb",
            Self::IdentityVerified => "ev-id",
            Self::ResourceAccessed => "ev-res",
            Self::PrivilegedActionTaken => "ev-priv",
        }
    }
}

/// Something that an actor did in a session at a time, in seconds.
pub struct ZtnaEntry {
    pub ts: u64,
    pub session: &'static str,
    pub actor: &'static str,
    pub event: ZtnaEvent,
    pub detail: &'static str,
}

} // verus!
