//! Domain events for the organization domain.
//!
//! Events are immutable facts and the only way aggregate state changes.
//! Each carries the identifiers and payload needed to replay it and the time
//! it occurred, in milliseconds since the epoch. At the transport boundary an
//! event travels inside an [`EventEnvelope`] carrying its identity.

use vstd::prelude::*;
use crate::entity::{FacilityType, OrganizationStatus, RoleType, TeamType};
use crate::value_objects::{OrganizationMember, OrganizationRole, OrganizationType};

verus! {

/// Correlation and causation identity of a message.
#[derive(Debug, Clone, Copy, PartialEq, Eq, Structural)]
pub struct MessageIdentity {
    pub correlation_id: u128,
    pub causation_id: u128,
    pub message_id: u128,
}

/// How two organizations were merged.
#[derive(Debug, Clone, Copy, PartialEq, Eq, Structural)]
pub enum MergerType {
    Acquisition,
    Merger,
    Consolidation,
    Absorption,
}

/// How a department was restructured.
#[derive(Debug, Clone, Copy, PartialEq, Eq, Structural)]
pub enum RestructureType {
    /// Department promoted in hierarchy
    Promotion,
    /// Department demoted in hierarchy
    Demotion,
    /// Department moved to a different parent
    Transfer,
    /// Department split into multiple
    Split,
    /// Department merged with another
    Merge,
}

/// What happens to members when an organization is dissolved or merged.
#[derive(Debug, Clone, PartialEq, Eq)]
pub enum MemberDisposition {
    /// Members are terminated
    Terminated,
    /// Members are transferred to another organization
    TransferredTo(u128),
    /// Members become independent contractors
    ConvertedToContractors,
    /// Other disposition
    Other(String),
}

impl MemberDisposition {
    /// Copy this disposition.
    pub fn duplicate(&self) -> (r: Self)
        ensures
            r == *self,
    {
        match self {
            MemberDisposition::Terminated => MemberDisposition::Terminated,
            MemberDisposition::TransferredTo(id) => MemberDisposition::TransferredTo(*id),
            MemberDisposition::ConvertedToContractors => MemberDisposition::ConvertedToContractors,
            MemberDisposition::Other(s) => MemberDisposition::Other(s.clone()),
        }
    }
}

/// Organization was created.
#[derive(Debug, Clone)]
pub struct OrganizationCreated {
    pub organization_id: u128,
    pub name: String,
    pub org_type: OrganizationType,
    pub parent_id: Option<u128>,
    pub created_at: u64,
}

/// Organization name or primary location was updated.
#[derive(Debug, Clone)]
pub struct OrganizationUpdated {
    pub organization_id: u128,
    pub name: Option<String>,
    pub primary_location_id: Option<u128>,
    pub updated_at: u64,
}

/// Organization status changed.
#[derive(Debug, Clone)]
pub struct OrganizationStatusChanged {
    pub organization_id: u128,
    pub old_status: OrganizationStatus,
    pub new_status: OrganizationStatus,
    pub reason: Option<String>,
    pub changed_at: u64,
}

/// Member was added to the organization.
#[derive(Debug, Clone)]
pub struct MemberAdded {
    pub organization_id: u128,
    pub member: OrganizationMember,
    pub added_at: u64,
}

/// Member was removed from the organization.
#[derive(Debug, Clone)]
pub struct MemberRemoved {
    pub organization_id: u128,
    pub person_id: u128,
    pub reason: Option<String>,
    pub removed_at: u64,
}

/// A member's role was updated.
#[derive(Debug, Clone)]
pub struct MemberRoleUpdated {
    pub organization_id: u128,
    pub person_id: u128,
    pub old_role: OrganizationRole,
    pub new_role: OrganizationRole,
    pub updated_at: u64,
}

/// A member's reporting relationship changed.
#[derive(Debug, Clone)]
pub struct ReportingRelationshipChanged {
    pub organization_id: u128,
    pub person_id: u128,
    pub old_manager_id: Option<u128>,
    pub new_manager_id: Option<u128>,
    pub changed_at: u64,
}

/// Child organization was added.
#[derive(Debug, Clone)]
pub struct ChildOrganizationAdded {
    pub parent_id: u128,
    pub child_id: u128,
    pub child_name: String,
    pub child_type: OrganizationType,
    pub added_at: u64,
}

/// Child organization was removed.
#[derive(Debug, Clone)]
pub struct ChildOrganizationRemoved {
    pub parent_id: u128,
    pub child_id: u128,
    pub removed_at: u64,
}

/// Location was added to the organization.
#[derive(Debug, Clone)]
pub struct LocationAdded {
    pub organization_id: u128,
    pub location_id: u128,
    pub name: String,
    pub address: String,
    pub is_primary: bool,
    pub added_at: u64,
}

/// Location was removed from the organization.
#[derive(Debug, Clone)]
pub struct LocationRemoved {
    pub organization_id: u128,
    pub location_id: u128,
    pub removed_at: u64,
}

/// Primary location changed.
#[derive(Debug, Clone)]
pub struct PrimaryLocationChanged {
    pub organization_id: u128,
    pub old_location_id: Option<u128>,
    pub new_location_id: u128,
    pub changed_at: u64,
}

/// Department was created.
#[derive(Debug, Clone)]
pub struct DepartmentCreated {
    pub organization_id: u128,
    pub department_id: u128,
    pub parent_department_id: Option<u128>,
    pub name: String,
    pub code: String,
    pub occurred_at: u64,
}

/// Department was moved under a new parent.
#[derive(Debug, Clone)]
pub struct DepartmentRestructured {
    pub organization_id: u128,
    pub department_id: u128,
    pub new_parent_id: Option<u128>,
    pub restructure_type: RestructureType,
    pub occurred_at: u64,
}

/// Department was dissolved.
#[derive(Debug, Clone)]
pub struct DepartmentDissolved {
    pub organization_id: u128,
    pub department_id: u128,
    pub reason: String,
    pub transfer_to: Option<u128>,
    pub occurred_at: u64,
}

/// Team was formed.
#[derive(Debug, Clone)]
pub struct TeamFormed {
    pub organization_id: u128,
    pub team_id: u128,
    pub department_id: Option<u128>,
    pub name: String,
    pub team_type: TeamType,
    pub occurred_at: u64,
}

/// Team was disbanded.
#[derive(Debug, Clone)]
pub struct TeamDisbanded {
    pub organization_id: u128,
    pub team_id: u128,
    pub reason: String,
    pub members_transferred_to: Option<u128>,
    pub occurred_at: u64,
}

/// Role was created.
#[derive(Debug, Clone)]
pub struct RoleCreated {
    pub organization_id: u128,
    pub role_id: u128,
    pub department_id: Option<u128>,
    pub team_id: Option<u128>,
    pub title: String,
    pub code: String,
    pub role_type: RoleType,
    pub occurred_at: u64,
}

/// Role was deprecated.
#[derive(Debug, Clone)]
pub struct RoleDeprecated {
    pub organization_id: u128,
    pub role_id: u128,
    pub reason: String,
    pub replacement_role_id: Option<u128>,
    pub occurred_at: u64,
}

/// Facility was created.
#[derive(Debug, Clone)]
pub struct FacilityCreated {
    pub organization_id: u128,
    pub facility_id: u128,
    pub name: String,
    pub code: String,
    pub facility_type: FacilityType,
    pub capacity: Option<u32>,
    pub parent_facility_id: Option<u128>,
    pub occurred_at: u64,
}

/// Facility was removed from the organization.
#[derive(Debug, Clone)]
pub struct FacilityRemoved {
    pub organization_id: u128,
    pub facility_id: u128,
    pub reason: Option<String>,
    pub occurred_at: u64,
}

/// Organization was dissolved.
#[derive(Debug, Clone)]
pub struct OrganizationDissolved {
    pub organization_id: u128,
    pub reason: String,
    pub member_disposition: MemberDisposition,
    pub dissolved_at: u64,
}

/// Organization was merged into another; raised on the source organization.
#[derive(Debug, Clone)]
pub struct OrganizationMerged {
    pub source_organization_id: u128,
    pub target_organization_id: u128,
    pub merger_type: MergerType,
    pub member_disposition: MemberDisposition,
    pub merged_at: u64,
}

/// The closed sum of all organization domain events.
#[derive(Debug, Clone)]
pub enum OrganizationEvent {
    Created(OrganizationCreated),
    Updated(OrganizationUpdated),
    StatusChanged(OrganizationStatusChanged),
    MemberAdded(MemberAdded),
    MemberRemoved(MemberRemoved),
    MemberRoleUpdated(MemberRoleUpdated),
    ReportingRelationshipChanged(ReportingRelationshipChanged),
    ChildOrganizationAdded(ChildOrganizationAdded),
    ChildOrganizationRemoved(ChildOrganizationRemoved),
    LocationAdded(LocationAdded),
    LocationRemoved(LocationRemoved),
    PrimaryLocationChanged(PrimaryLocationChanged),
    DepartmentCreated(DepartmentCreated),
    DepartmentRestructured(DepartmentRestructured),
    DepartmentDissolved(DepartmentDissolved),
    TeamFormed(TeamFormed),
    TeamDisbanded(TeamDisbanded),
    RoleCreated(RoleCreated),
    RoleDeprecated(RoleDeprecated),
    FacilityCreated(FacilityCreated),
    FacilityRemoved(FacilityRemoved),
    Dissolved(OrganizationDissolved),
    Merged(OrganizationMerged),
}

/// The aggregate an event belongs to; for a merger, the source organization.
pub open spec fn spec_event_aggregate_id(e: OrganizationEvent) -> u128 {
    match e {
        OrganizationEvent::Created(ev) => ev.organization_id,
        OrganizationEvent::Updated(ev) => ev.organization_id,
        OrganizationEvent::StatusChanged(ev) => ev.organization_id,
        OrganizationEvent::MemberAdded(ev) => ev.organization_id,
        OrganizationEvent::MemberRemoved(ev) => ev.organization_id,
        OrganizationEvent::MemberRoleUpdated(ev) => ev.organization_id,
        OrganizationEvent::ReportingRelationshipChanged(ev) => ev.organization_id,
        OrganizationEvent::ChildOrganizationAdded(ev) => ev.parent_id,
        OrganizationEvent::ChildOrganizationRemoved(ev) => ev.parent_id,
        OrganizationEvent::LocationAdded(ev) => ev.organization_id,
        OrganizationEvent::LocationRemoved(ev) => ev.organization_id,
        OrganizationEvent::PrimaryLocationChanged(ev) => ev.organization_id,
        OrganizationEvent::DepartmentCreated(ev) => ev.organization_id,
        OrganizationEvent::DepartmentRestructured(ev) => ev.organization_id,
        OrganizationEvent::DepartmentDissolved(ev) => ev.organization_id,
        OrganizationEvent::TeamFormed(ev) => ev.organization_id,
        OrganizationEvent::TeamDisbanded(ev) => ev.organization_id,
        OrganizationEvent::RoleCreated(ev) => ev.organization_id,
        OrganizationEvent::RoleDeprecated(ev) => ev.organization_id,
        OrganizationEvent::FacilityCreated(ev) => ev.organization_id,
        OrganizationEvent::FacilityRemoved(ev) => ev.organization_id,
        OrganizationEvent::Dissolved(ev) => ev.organization_id,
        OrganizationEvent::Merged(ev) => ev.source_organization_id,
    }
}

/// When an event occurred.
pub open spec fn spec_event_occurred_at(e: OrganizationEvent) -> u64 {
    match e {
        OrganizationEvent::Created(ev) => ev.created_at,
        OrganizationEvent::Updated(ev) => ev.updated_at,
        OrganizationEvent::StatusChanged(ev) => ev.changed_at,
        OrganizationEvent::MemberAdded(ev) => ev.added_at,
        OrganizationEvent::MemberRemoved(ev) => ev.removed_at,
        OrganizationEvent::MemberRoleUpdated(ev) => ev.updated_at,
        OrganizationEvent::ReportingRelationshipChanged(ev) => ev.changed_at,
        OrganizationEvent::ChildOrganizationAdded(ev) => ev.added_at,
        OrganizationEvent::ChildOrganizationRemoved(ev) => ev.removed_at,
        OrganizationEvent::LocationAdded(ev) => ev.added_at,
        OrganizationEvent::LocationRemoved(ev) => ev.removed_at,
        OrganizationEvent::PrimaryLocationChanged(ev) => ev.changed_at,
        OrganizationEvent::DepartmentCreated(ev) => ev.occurred_at,
        OrganizationEvent::DepartmentRestructured(ev) => ev.occurred_at,
        OrganizationEvent::DepartmentDissolved(ev) => ev.occurred_at,
        OrganizationEvent::TeamFormed(ev) => ev.occurred_at,
        OrganizationEvent::TeamDisbanded(ev) => ev.occurred_at,
        OrganizationEvent::RoleCreated(ev) => ev.occurred_at,
        OrganizationEvent::RoleDeprecated(ev) => ev.occurred_at,
        OrganizationEvent::FacilityCreated(ev) => ev.occurred_at,
        OrganizationEvent::FacilityRemoved(ev) => ev.occurred_at,
        OrganizationEvent::Dissolved(ev) => ev.dissolved_at,
        OrganizationEvent::Merged(ev) => ev.merged_at,
    }
}

/// The string tag of each event variant.
pub open spec fn spec_event_type(e: OrganizationEvent) -> Seq<char> {
    match e {
        OrganizationEvent::Created(_) => "OrganizationCreated"@,
        OrganizationEvent::Updated(_) => "OrganizationUpdated"@,
        OrganizationEvent::StatusChanged(_) => "OrganizationStatusChanged"@,
        OrganizationEvent::MemberAdded(_) => "MemberAdded"@,
        OrganizationEvent::MemberRemoved(_) => "MemberRemoved"@,
        OrganizationEvent::MemberRoleUpdated(_) => "MemberRoleUpdated"@,
        OrganizationEvent::ReportingRelationshipChanged(_) => "ReportingRelationshipChanged"@,
        OrganizationEvent::ChildOrganizationAdded(_) => "ChildOrganizationAdded"@,
        OrganizationEvent::ChildOrganizationRemoved(_) => "ChildOrganizationRemoved"@,
        OrganizationEvent::LocationAdded(_) => "LocationAdded"@,
        OrganizationEvent::LocationRemoved(_) => "LocationRemoved"@,
        OrganizationEvent::PrimaryLocationChanged(_) => "PrimaryLocationChanged"@,
        OrganizationEvent::DepartmentCreated(_) => "DepartmentCreated"@,
        OrganizationEvent::DepartmentRestructured(_) => "DepartmentRestructured"@,
        OrganizationEvent::DepartmentDissolved(_) => "DepartmentDissolved"@,
        OrganizationEvent::TeamFormed(_) => "TeamFormed"@,
        OrganizationEvent::TeamDisbanded(_) => "TeamDisbanded"@,
        OrganizationEvent::RoleCreated(_) => "RoleCreated"@,
        OrganizationEvent::RoleDeprecated(_) => "RoleDeprecated"@,
        OrganizationEvent::FacilityCreated(_) => "FacilityCreated"@,
        OrganizationEvent::FacilityRemoved(_) => "FacilityRemoved"@,
        OrganizationEvent::Dissolved(_) => "OrganizationDissolved"@,
        OrganizationEvent::Merged(_) => "OrganizationMerged"@,
    }
}

impl OrganizationEvent {
    /// The aggregate this event belongs to.
    pub fn aggregate_id(&self) -> (r: u128)
        ensures
            r == spec_event_aggregate_id(*self),
    {
        match self {
            OrganizationEvent::Created(ev) => ev.organization_id,
            OrganizationEvent::Updated(ev) => ev.organization_id,
            OrganizationEvent::StatusChanged(ev) => ev.organization_id,
            OrganizationEvent::MemberAdded(ev) => ev.organization_id,
            OrganizationEvent::MemberRemoved(ev) => ev.organization_id,
            OrganizationEvent::MemberRoleUpdated(ev) => ev.organization_id,
            OrganizationEvent::ReportingRelationshipChanged(ev) => ev.organization_id,
            OrganizationEvent::ChildOrganizationAdded(ev) => ev.parent_id,
            OrganizationEvent::ChildOrganizationRemoved(ev) => ev.parent_id,
            OrganizationEvent::LocationAdded(ev) => ev.organization_id,
            OrganizationEvent::LocationRemoved(ev) => ev.organization_id,
            OrganizationEvent::PrimaryLocationChanged(ev) => ev.organization_id,
            OrganizationEvent::DepartmentCreated(ev) => ev.organization_id,
            OrganizationEvent::DepartmentRestructured(ev) => ev.organization_id,
            OrganizationEvent::DepartmentDissolved(ev) => ev.organization_id,
            OrganizationEvent::TeamFormed(ev) => ev.organization_id,
            OrganizationEvent::TeamDisbanded(ev) => ev.organization_id,
            OrganizationEvent::RoleCreated(ev) => ev.organization_id,
            OrganizationEvent::RoleDeprecated(ev) => ev.organization_id,
            OrganizationEvent::FacilityCreated(ev) => ev.organization_id,
            OrganizationEvent::FacilityRemoved(ev) => ev.organization_id,
            OrganizationEvent::Dissolved(ev) => ev.organization_id,
            OrganizationEvent::Merged(ev) => ev.source_organization_id,
        }
    }

    /// When this event occurred, milliseconds since the epoch.
    pub fn occurred_at(&self) -> (r: u64)
        ensures
            r == spec_event_occurred_at(*self),
    {
        match self {
            OrganizationEvent::Created(ev) => ev.created_at,
            OrganizationEvent::Updated(ev) => ev.updated_at,
            OrganizationEvent::StatusChanged(ev) => ev.changed_at,
            OrganizationEvent::MemberAdded(ev) => ev.added_at,
            OrganizationEvent::MemberRemoved(ev) => ev.removed_at,
            OrganizationEvent::MemberRoleUpdated(ev) => ev.updated_at,
            OrganizationEvent::ReportingRelationshipChanged(ev) => ev.changed_at,
            OrganizationEvent::ChildOrganizationAdded(ev) => ev.added_at,
            OrganizationEvent::ChildOrganizationRemoved(ev) => ev.removed_at,
            OrganizationEvent::LocationAdded(ev) => ev.added_at,
            OrganizationEvent::LocationRemoved(ev) => ev.removed_at,
            OrganizationEvent::PrimaryLocationChanged(ev) => ev.changed_at,
            OrganizationEvent::DepartmentCreated(ev) => ev.occurred_at,
            OrganizationEvent::DepartmentRestructured(ev) => ev.occurred_at,
            OrganizationEvent::DepartmentDissolved(ev) => ev.occurred_at,
            OrganizationEvent::TeamFormed(ev) => ev.occurred_at,
            OrganizationEvent::TeamDisbanded(ev) => ev.occurred_at,
            OrganizationEvent::RoleCreated(ev) => ev.occurred_at,
            OrganizationEvent::RoleDeprecated(ev) => ev.occurred_at,
            OrganizationEvent::FacilityCreated(ev) => ev.occurred_at,
            OrganizationEvent::FacilityRemoved(ev) => ev.occurred_at,
            OrganizationEvent::Dissolved(ev) => ev.dissolved_at,
            OrganizationEvent::Merged(ev) => ev.merged_at,
        }
    }

    /// The string tag of this event's variant.
    pub fn event_type(&self) -> (r: &'static str)
        ensures
            r@ == spec_event_type(*self),
    {
        match self {
            OrganizationEvent::Created(_) => "OrganizationCreated",
            OrganizationEvent::Updated(_) => "OrganizationUpdated",
            OrganizationEvent::StatusChanged(_) => "OrganizationStatusChanged",
            OrganizationEvent::MemberAdded(_) => "MemberAdded",
            OrganizationEvent::MemberRemoved(_) => "MemberRemoved",
            OrganizationEvent::MemberRoleUpdated(_) => "MemberRoleUpdated",
            OrganizationEvent::ReportingRelationshipChanged(_) => "ReportingRelationshipChanged",
            OrganizationEvent::ChildOrganizationAdded(_) => "ChildOrganizationAdded",
            OrganizationEvent::ChildOrganizationRemoved(_) => "ChildOrganizationRemoved",
            OrganizationEvent::LocationAdded(_) => "LocationAdded",
            OrganizationEvent::LocationRemoved(_) => "LocationRemoved",
            OrganizationEvent::PrimaryLocationChanged(_) => "PrimaryLocationChanged",
            OrganizationEvent::DepartmentCreated(_) => "DepartmentCreated",
            OrganizationEvent::DepartmentRestructured(_) => "DepartmentRestructured",
            OrganizationEvent::DepartmentDissolved(_) => "DepartmentDissolved",
            OrganizationEvent::TeamFormed(_) => "TeamFormed",
            OrganizationEvent::TeamDisbanded(_) => "TeamDisbanded",
            OrganizationEvent::RoleCreated(_) => "RoleCreated",
            OrganizationEvent::RoleDeprecated(_) => "RoleDeprecated",
            OrganizationEvent::FacilityCreated(_) => "FacilityCreated",
            OrganizationEvent::FacilityRemoved(_) => "FacilityRemoved",
            OrganizationEvent::Dissolved(_) => "OrganizationDissolved",
            OrganizationEvent::Merged(_) => "OrganizationMerged",
        }
    }
}

/// Wire-level envelope of a single event, produced at the transport boundary.
/// The payload itself travels beside the envelope; serialization happens
/// outside this crate.
#[derive(Debug, Clone)]
pub struct EventEnvelope {
    pub event_id: u128,
    pub correlation_id: u128,
    pub causation_id: u128,
    pub aggregate_id: u128,
    pub event_type: String,
    pub occurred_at: u64,
}

/// Build the envelope for an event under a given message identity and a
/// fresh event identifier.
pub fn envelope_for(event: &OrganizationEvent, identity: MessageIdentity, event_id: u128) -> (r:
    EventEnvelope)
    ensures
        r.event_id == event_id,
        r.correlation_id == identity.correlation_id,
        r.causation_id == identity.causation_id,
        r.aggregate_id == spec_event_aggregate_id(*event),
        r.event_type@ == spec_event_type(*event),
        r.occurred_at == spec_event_occurred_at(*event),
{
    EventEnvelope {
        event_id,
        correlation_id: identity.correlation_id,
        causation_id: identity.causation_id,
        aggregate_id: event.aggregate_id(),
        event_type: event.event_type().to_owned(),
        occurred_at: event.occurred_at(),
    }
}

} // verus!
