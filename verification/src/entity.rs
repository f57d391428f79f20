//! Core entities of the organization domain: the aggregate's lifecycle
//! status machine and the entity records it owns (departments, teams, roles,
//! facilities).
//!
//! Identifiers are 128-bit values; timestamps are milliseconds since the
//! epoch as unsigned integers.

use vstd::prelude::*;

verus! {

/// Lifecycle status of an organization aggregate.
///
/// `Dissolved` and `Merged` are terminal. The initial status of a
/// not-yet-created aggregate is `Pending`.
#[derive(Debug, Clone, Copy, PartialEq, Eq, Hash, Structural)]
pub enum OrganizationStatus {
    Pending,
    Active,
    Inactive,
    Suspended,
    Dissolved,
    Merged,
}

/// The allowed edges of the status state machine:
/// Pending→Active; Active→{Inactive, Suspended, Dissolved, Merged};
/// Inactive→Active; Suspended→{Active, Dissolved}. Every other pair,
/// including every self-loop, is rejected.
pub open spec fn transition_allowed(from: OrganizationStatus, to: OrganizationStatus) -> bool {
    match (from, to) {
        (OrganizationStatus::Pending, OrganizationStatus::Active) => true,
        (OrganizationStatus::Active, OrganizationStatus::Inactive) => true,
        (OrganizationStatus::Active, OrganizationStatus::Suspended) => true,
        (OrganizationStatus::Active, OrganizationStatus::Dissolved) => true,
        (OrganizationStatus::Active, OrganizationStatus::Merged) => true,
        (OrganizationStatus::Inactive, OrganizationStatus::Active) => true,
        (OrganizationStatus::Suspended, OrganizationStatus::Active) => true,
        (OrganizationStatus::Suspended, OrganizationStatus::Dissolved) => true,
        _ => false,
    }
}

impl OrganizationStatus {
    /// Decide whether the state machine allows a transition from this
    /// status to `to`. Pure; exercised directly and through the
    /// status-change command.
    pub fn can_transition_to(&self, to: &OrganizationStatus) -> (r: bool)
        ensures
            r == transition_allowed(*self, *to),
    {
        match (self, to) {
            (Self::Pending, Self::Active) => true,
            (Self::Active, Self::Inactive) => true,
            (Self::Active, Self::Suspended) => true,
            (Self::Active, Self::Dissolved) => true,
            (Self::Active, Self::Merged) => true,
            (Self::Inactive, Self::Active) => true,
            (Self::Suspended, Self::Active) => true,
            (Self::Suspended, Self::Dissolved) => true,
            _ => false,
        }
    }

    /// Whether an aggregate in this status accepts new members.
    pub fn can_have_members(&self) -> (r: bool)
        ensures
            r == (*self == OrganizationStatus::Pending || *self == OrganizationStatus::Active
                || *self == OrganizationStatus::Inactive),
    {
        matches!(self, Self::Pending | Self::Active | Self::Inactive)
    }

    /// Whether an aggregate in this status accepts descriptive updates.
    pub fn can_be_modified(&self) -> (r: bool)
        ensures
            r == (*self == OrganizationStatus::Pending || *self == OrganizationStatus::Active
                || *self == OrganizationStatus::Inactive),
    {
        matches!(self, Self::Pending | Self::Active | Self::Inactive)
    }
}

impl Default for OrganizationStatus {
    fn default() -> (r: Self)
        ensures
            r == OrganizationStatus::Pending,
    {
        Self::Pending
    }
}

/// Legal form of an organization as an entity-level classification.
#[derive(Debug, Clone, PartialEq, Eq, Hash)]
pub enum OrganizationType {
    Corporation,
    NonProfit,
    Government,
    Partnership,
    SoleProprietorship,
    Cooperative,
    LLC,
    Other(String),
}

/// Department status.
#[derive(Debug, Clone, Copy, PartialEq, Eq, Hash, Structural)]
pub enum DepartmentStatus {
    Active,
    Inactive,
    Restructuring,
    Dissolved,
}

/// Team types.
#[derive(Debug, Clone, Copy, PartialEq, Eq, Hash, Structural)]
pub enum TeamType {
    Permanent,
    Project,
    CrossFunctional,
    Virtual,
    SelfManaged,
    TaskForce,
}

/// Team status.
#[derive(Debug, Clone, Copy, PartialEq, Eq, Hash, Structural)]
pub enum TeamStatus {
    Forming,
    Active,
    OnHold,
    Disbanding,
    Disbanded,
}

/// Role types.
#[derive(Debug, Clone, Copy, PartialEq, Eq, Hash, Structural)]
pub enum RoleType {
    Executive,
    Management,
    Technical,
    Administrative,
    Operational,
    Support,
    Contractor,
    Intern,
}

/// Role status.
#[derive(Debug, Clone, Copy, PartialEq, Eq, Hash, Structural)]
pub enum RoleStatus {
    Active,
    Vacant,
    Deprecated,
    Frozen,
}

/// Facility types.
#[derive(Debug, Clone, Copy, PartialEq, Eq, Hash, Structural)]
pub enum FacilityType {
    Headquarters,
    Office,
    Warehouse,
    Factory,
    RetailStore,
    DataCenter,
    Laboratory,
    ServiceCenter,
}

/// Facility status.
#[derive(Debug, Clone, Copy, PartialEq, Eq, Hash, Structural)]
pub enum FacilityStatus {
    Active,
    UnderConstruction,
    Renovating,
    Inactive,
    Closed,
}

/// Organization unit types.
#[derive(Debug, Clone, Copy, PartialEq, Eq, Hash, Structural)]
pub enum OrganizationUnitType {
    Division,
    Branch,
    Office,
    Region,
    District,
    CostCenter,
    ProfitCenter,
    BusinessUnit,
}

/// A division within an organization.
#[derive(Debug)]
pub struct Department {
    pub id: u128,
    pub organization_id: u128,
    pub parent_department_id: Option<u128>,
    pub name: String,
    pub code: String,
    pub status: DepartmentStatus,
    pub created_at: u64,
    pub updated_at: u64,
}

impl View for Department {
    type V = Department;

    open spec fn view(&self) -> Department {
        *self
    }
}

/// A working group within a department or organization.
#[derive(Debug)]
pub struct Team {
    pub id: u128,
    pub organization_id: u128,
    pub department_id: Option<u128>,
    pub name: String,
    pub team_type: TeamType,
    pub status: TeamStatus,
    pub created_at: u64,
    pub updated_at: u64,
}

impl View for Team {
    type V = Team;

    open spec fn view(&self) -> Team {
        *self
    }
}

/// A position or responsibility within an organization.
#[derive(Debug)]
pub struct Role {
    pub id: u128,
    pub organization_id: u128,
    pub department_id: Option<u128>,
    pub team_id: Option<u128>,
    pub title: String,
    pub code: String,
    pub role_type: RoleType,
    pub status: RoleStatus,
    pub created_at: u64,
    pub updated_at: u64,
}

impl View for Role {
    type V = Role;

    open spec fn view(&self) -> Role {
        *self
    }
}

/// An organizational place (office, warehouse, and so on). Address data
/// lives with the location collaborator, not here.
#[derive(Debug)]
pub struct Facility {
    pub id: u128,
    pub organization_id: u128,
    pub name: String,
    pub code: String,
    pub facility_type: FacilityType,
    pub capacity: Option<u32>,
    pub status: FacilityStatus,
    pub parent_facility_id: Option<u128>,
    pub created_at: u64,
    pub updated_at: u64,
}

impl View for Facility {
    type V = Facility;

    open spec fn view(&self) -> Facility {
        *self
    }
}

} // verus!
