//! Typed errors of the organization domain.
//!
//! Validation errors are caller-facing and terminal for the command that
//! raised them; a concurrency conflict is recoverable by reloading and
//! retrying. Every error carries the identifier or statuses it is about.

use vstd::prelude::*;
use crate::entity::OrganizationStatus;

verus! {

/// Errors that can occur in the organization domain.
#[derive(Debug, Clone, Copy, PartialEq, Eq, Structural)]
pub enum OrganizationError {
    /// The organization does not exist (no event has ever been appended).
    NotFound(u128),
    /// An organization with this identifier already exists.
    AlreadyExists(u128),
    /// A name was blank where one is required.
    InvalidName,
    /// The operation is not allowed while the organization is in this status.
    InvalidStatus(OrganizationStatus),
    /// The requested status transition is not an allowed edge.
    InvalidStatusTransition { from: OrganizationStatus, to: OrganizationStatus },
    /// The person is already a member.
    MemberAlreadyExists(u128),
    /// The person is not a member.
    MemberNotFound(u128),
    /// The proposed manager is not a member.
    ManagerNotFound(u128),
    /// An entity would reference itself as its own parent or manager.
    SelfReference(u128),
    /// The change would create a cycle in a reporting or ownership graph.
    CircularReference(u128),
    /// The member still has direct reports.
    HasDirectReports(u128),
    /// The organization is already a child.
    ChildAlreadyExists(u128),
    /// The organization is not a child.
    ChildNotFound(u128),
    /// The location is already associated.
    LocationAlreadyExists(u128),
    /// The location is not associated.
    LocationNotFound(u128),
    /// A department with this identifier already exists.
    DepartmentAlreadyExists(u128),
    /// The department does not exist.
    DepartmentNotFound(u128),
    /// A team with this identifier already exists.
    TeamAlreadyExists(u128),
    /// The team does not exist.
    TeamNotFound(u128),
    /// A role with this identifier already exists.
    RoleAlreadyExists(u128),
    /// The role does not exist.
    RoleNotFound(u128),
    /// A facility with this identifier already exists.
    FacilityAlreadyExists(u128),
    /// The facility does not exist.
    FacilityNotFound(u128),
    /// The organization still has child organizations.
    HasChildOrganizations,
    /// An organization cannot merge with itself.
    InvalidMerge,
    /// The event log moved past the expected version; reload and retry.
    ConcurrencyConflict { expected: u64, actual: u64 },
}

} // verus!
