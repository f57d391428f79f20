//! Event-sourced domain library for organizational structure.
//!
//! An organization aggregate (members, departments, teams, roles, facilities,
//! locations, child organizations) is managed through commands and events:
//! commands are validated against the current in-memory state and turned into
//! events; events are the only way state changes, applied by a deterministic
//! fold. A repository replays the event log (optionally from a snapshot) and
//! appends new events under optimistic concurrency. A projection updater
//! maintains denormalized read views from the same event stream.

pub mod aggregate;
pub mod clock;
pub mod commands;
pub mod components;
pub mod entity;
pub mod errors;
pub mod events;
pub mod id_map;
pub mod ids;
pub mod nats;
pub mod ports;
pub mod projections;
pub mod queries;
pub mod repository;
pub mod text;
pub mod value_objects;

pub use aggregate::{ChildOrganization, OrganizationAggregate, OrganizationLocation};
pub use commands::{
    AddChildOrganization, AddLocation, AddMember, ChangeOrganizationStatus,
    ChangePrimaryLocation, ChangeReportingRelationship, CreateDepartment, CreateFacility,
    CreateOrganization, CreateRole, CreateTeam, DeprecateRole, DisbandTeam, DissolveDepartment,
    DissolveOrganization, MergeOrganizations, OrganizationCommand, RemoveChildOrganization,
    RemoveFacility, RemoveLocation, RemoveMember, RestructureDepartment, UpdateMemberRole,
    UpdateOrganization,
};
pub use entity::{
    Department, DepartmentStatus, Facility, FacilityStatus, FacilityType, OrganizationStatus,
    Role, RoleStatus, RoleType, Team, TeamStatus, TeamType,
};
pub use errors::OrganizationError;
pub use events::{
    EventEnvelope, MemberDisposition, MergerType, MessageIdentity, OrganizationEvent,
    RestructureType,
};
pub use repository::{
    InMemoryEventStore, InMemorySnapshotStore, OrganizationCommandHandler,
    OrganizationRepository, OrganizationSnapshot,
};
pub use value_objects::{
    OrganizationMember, OrganizationRole, OrganizationType, Permission, RoleLevel, SizeCategory,
};
