//! The events that the engines read, by domain.

use vstd::prelude::*;

verus! {

// ── Domain tag ────────────────────────────────────────────────────────────────

#[derive(Debug, Clone, Copy, PartialEq, Eq, Structural)]
pub enum Domain {
    Identity,
    ControlPlane,
    Thermal,
    Automation,
}

impl Domain {
    /// The name of the domain.
    pub open spec fn label(self) -> Seq<char> {
        match self {
            Domain::Identity => "Identity"@,
            Domain::ControlPlane => "ControlPlane"@,
            Domain::Thermal => "Thermal"@,
            Domain::Automation => "Automation"@,
        }
    }

    pub fn name(&self) -> (r: &'static str)
        ensures
            r@ == self.label(),
    {
        match self {
            Self::Identity => "Identity",
            Self::ControlPlane => "ControlPlane",
            Self::Thermal => "Thermal",
            Self::Automation => "Automation",
        }
    }
}

// ── Identity domain events ────────────────────────────────────────────────────

#[derive(Debug, Clone, Copy, PartialEq, Eq, Structural)]
pub enum IdentityEvent {
    LoginSuccess,
    AuthTokenIssued,
    AuthTokenUsed,
}

impl IdentityEvent {
    /// The name of the event.
    pub open spec fn label(self) -> Seq<char> {
        match self {
            IdentityEvent::LoginSuccess => "LoginSuccess"@,
            IdentityEvent::AuthTokenIssued => "AuthTokenIssued"@,
            IdentityEvent::AuthTokenUsed => "AuthTokenUsed"@,
        }
    }

    pub fn name(&self) -> (r: &'static str)
        ensures
            r@ == self.label(),
    {
        match self {
            Self::LoginSuccess => "LoginSuccess",
            Self::AuthTokenIssued => "AuthTokenIssued",
            Self::AuthTokenUsed => "AuthTokenUsed",
        }
    }
}

// ── ControlPlane domain events ────────────────────────────────────────────────

#[derive(Debug, Clone, Copy, PartialEq, Eq, Structural)]
pub enum ControlPlaneEvent {
    RoleAssigned,
    AdminActionTaken,
}

impl ControlPlaneEvent {
    /// The name of the event.
    pub open spec fn label(self) -> Seq<char> {
        match self {
            ControlPlaneEvent::RoleAssigned => "RoleAssigned"@,
            ControlPlaneEvent::AdminActionTaken => "AdminActionTaken"@,
        }
    }

    pub fn name(&self) -> (r: &'static str)
        ensures
            r@ == self.label(),
    {
        match self {
            Self::RoleAssigned => "RoleAssigned",
            Self::AdminActionTaken => "AdminActionTaken",
        }
    }
}

// ── Thermal domain events ─────────────────────────────────────────────────────

#[derive(Debug, Clone, Copy, PartialEq, Eq, Structural)]
pub enum ThermalEvent {
    WorkloadScheduled,
    /// A temperature in degrees Celsius.
    ThermalReading(u64),
}

impl ThermalEvent {
    /// The name of the event.
    pub open spec fn label(self) -> Seq<char> {
        match self {
            ThermalEvent::WorkloadScheduled => "WorkloadScheduled"@,
            ThermalEvent::ThermalReading(_) => "ThermalReading"@,
        }
    }

    pub fn name(&self) -> (r: &'static str)
        ensures
            r@ == self.label(),
    {
        match self {
            Self::WorkloadScheduled => "WorkloadScheduled",
            Self::ThermalReading(_) => "ThermalReading",
        }
    }
}

// ── Automation domain events ──────────────────────────────────────────────────

#[derive(Debug, Clone, Copy, PartialEq, Eq, Structural)]
pub enum AutomationEvent {
    StateValidated,
    AutomationTriggered,
}

impl AutomationEvent {
    /// The name of the event.
    pub open spec fn label(self) -> Seq<char> {
        match self {
            AutomationEvent::StateValidated => "StateValidated"@,
            AutomationEvent::AutomationTriggered => "AutomationTriggered"@,
        }
    }

    pub fn name(&self) -> (r: &'static str)
        ensures
            r@ == self.label(),
    {
        match self {
            Self::StateValidated => "StateValidated",
            Self::AutomationTriggered => "AutomationTriggered",
        }
    }
}

// ── Top-level domain event ────────────────────────────────────────────────────

#[derive(Debug, Clone, Copy, PartialEq, Eq, Structural)]
pub enum DomainEvent {
    Identity(IdentityEvent),
    ControlPlane(ControlPlaneEvent),
    Thermal(ThermalEvent),
    Automation(AutomationEvent),
}

impl DomainEvent {
    /// The name of the event.
    pub open spec fn label(self) -> Seq<char> {
        match self {
            DomainEvent::Identity(e) => e.label(),
            DomainEvent::ControlPlane(e) => e.label(),
            DomainEvent::Thermal(e) => e.label(),
            DomainEvent::Automation(e) => e.label(),
        }
    }

    /// The domain that the event belongs to.
    pub open spec fn tag(self) -> Domain {
        match self {
            DomainEvent::Identity(_) => Domain::Identity,
            DomainEvent::ControlPlane(_) => Domain::ControlPlane,
            DomainEvent::Thermal(_) => Domain::Thermal,
            DomainEvent::Automation(_) => Domain::Automation,
        }
    }

    pub fn name(&self) -> (r: &'static str)
        ensures
            r@ == self.label(),
    {
        match self {
            Self::Identity(e) => e.name(),
            Self::ControlPlane(e) => e.name(),
            Self::Thermal(e) => e.name(),
            Self::Automation(e) => e.name(),
        }
    }

    pub fn domain(&self) -> (r: Domain)
        ensures
            r == self.tag(),
    {
        match self {
            Self::Identity(_) => Domain::Identity,
            Self::ControlPlane(_) => Domain::ControlPlane,
            Self::Thermal(_) => Domain::Thermal,
            Self::Automation(_) => Domain::Automation,
        }
    }
}

// ── Event ─────────────────────────────────────────────────────────────────────

/// Something that happened to an entity at a time, in seconds.
pub struct Event {
    pub ts: u64,
    pub entity: &'static str,
    pub kind: DomainEvent,
}

/// An event with its entity as a character sequence.
pub struct EventView {
    pub ts: u64,
    pub entity: Seq<char>,
    pub kind: DomainEvent,
}

impl View for Event {
    type V = EventView;

    open spec fn view(&self) -> EventView {
        EventView { ts: self.ts, entity: self.entity@, kind: self.kind }
    }
}

impl Event {
    pub fn new(ts: u64, entity: &'static str, kind: DomainEvent) -> (r: Self)
        ensures
            r == (Event { ts, entity, kind }),
    {
        Self { ts, entity, kind }
    }

    pub fn identity(ts: u64, entity: &'static str, kind: IdentityEvent) -> (r: Self)
        ensures
            r == (Event { ts, entity, kind: DomainEvent::Identity(kind) }),
    {
        Self::new(ts, entity, DomainEvent::Identity(kind))
    }

    pub fn control_plane(ts: u64, entity: &'static str, kind: ControlPlaneEvent) -> (r: Self)
        ensures
            r == (Event { ts, entity, kind: DomainEvent::ControlPlane(kind) }),
    {
        Self::new(ts, entity, DomainEvent::ControlPlane(kind))
    }

    pub fn thermal(ts: u64, entity: &'static str, kind: ThermalEvent) -> (r: Self)
        ensures
            r == (Event { ts, entity, kind: DomainEvent::Thermal(kind) }),
    {
        Self::new(ts, entity, DomainEvent::Thermal(kind))
    }

    pub fn automation(ts: u64, entity: &'static str, kind: AutomationEvent) -> (r: Self)
        ensures
            r == (Event { ts, entity, kind: DomainEvent::Automation(kind) }),
    {
        Self::new(ts, entity, DomainEvent::Automation(kind))
    }
}

} // verus!
