//! Commands of the organization domain.
//!
//! A command carries the intent to change state; it is validated against the
//! current in-memory aggregate state and either turned into events or
//! rejected with a typed error, producing no partial effects.

use vstd::prelude::*;
use crate::entity::{FacilityType, OrganizationStatus, RoleType, TeamType};
use crate::events::{MemberDisposition, MergerType, RestructureType};
use crate::value_objects::{OrganizationRole, OrganizationType};

verus! {

/// Command: create a new organization.
#[derive(Debug, Clone)]
pub struct CreateOrganization {
    pub organization_id: u128,
    pub name: String,
    pub org_type: OrganizationType,
    pub parent_id: Option<u128>,
}

/// Command: update the organization's name or primary location.
#[derive(Debug, Clone)]
pub struct UpdateOrganization {
    pub organization_id: u128,
    pub name: Option<String>,
    pub primary_location_id: Option<u128>,
}

/// Command: change the organization's lifecycle status.
#[derive(Debug, Clone)]
pub struct ChangeOrganizationStatus {
    pub organization_id: u128,
    pub new_status: OrganizationStatus,
    pub reason: Option<String>,
}

/// Command: add a member.
#[derive(Debug, Clone)]
pub struct AddMember {
    pub organization_id: u128,
    pub person_id: u128,
    pub role: OrganizationRole,
    pub department_id: Option<u128>,
    pub reports_to: Option<u128>,
}

/// Command: remove a member.
#[derive(Debug, Clone)]
pub struct RemoveMember {
    pub organization_id: u128,
    pub person_id: u128,
    pub reason: Option<String>,
}

/// Command: update a member's role.
#[derive(Debug, Clone)]
pub struct UpdateMemberRole {
    pub organization_id: u128,
    pub person_id: u128,
    pub new_role: OrganizationRole,
}

/// Command: change or clear a member's manager.
#[derive(Debug, Clone)]
pub struct ChangeReportingRelationship {
    pub organization_id: u128,
    pub person_id: u128,
    pub new_manager_id: Option<u128>,
}

/// Command: add a child organization.
#[derive(Debug, Clone)]
pub struct AddChildOrganization {
    pub parent_organization_id: u128,
    pub child_organization_id: u128,
    pub child_name: String,
    pub child_type: OrganizationType,
}

/// Command: remove a child organization.
#[derive(Debug, Clone)]
pub struct RemoveChildOrganization {
    pub parent_organization_id: u128,
    pub child_organization_id: u128,
}

/// Command: add a location; the first location, or one explicitly marked,
/// becomes primary.
#[derive(Debug, Clone)]
pub struct AddLocation {
    pub organization_id: u128,
    pub location_id: u128,
    pub name: String,
    pub address: String,
    pub make_primary: bool,
}

/// Command: remove a location.
#[derive(Debug, Clone)]
pub struct RemoveLocation {
    pub organization_id: u128,
    pub location_id: u128,
}

/// Command: make an existing location the primary one.
#[derive(Debug, Clone)]
pub struct ChangePrimaryLocation {
    pub organization_id: u128,
    pub new_location_id: u128,
}

/// Command: create a department.
#[derive(Debug, Clone)]
pub struct CreateDepartment {
    pub organization_id: u128,
    pub department_id: u128,
    pub parent_department_id: Option<u128>,
    pub name: String,
    pub code: String,
}

/// Command: move a department under a new parent.
#[derive(Debug, Clone)]
pub struct RestructureDepartment {
    pub organization_id: u128,
    pub department_id: u128,
    pub new_parent_id: Option<u128>,
    pub restructure_type: RestructureType,
}

/// Command: dissolve a department.
#[derive(Debug, Clone)]
pub struct DissolveDepartment {
    pub organization_id: u128,
    pub department_id: u128,
    pub reason: String,
    pub transfer_to: Option<u128>,
}

/// Command: create a team.
#[derive(Debug, Clone)]
pub struct CreateTeam {
    pub organization_id: u128,
    pub team_id: u128,
    pub department_id: Option<u128>,
    pub name: String,
    pub team_type: TeamType,
}

/// Command: disband a team.
#[derive(Debug, Clone)]
pub struct DisbandTeam {
    pub organization_id: u128,
    pub team_id: u128,
    pub reason: String,
    pub members_transfer_to: Option<u128>,
}

/// Command: create a role.
#[derive(Debug, Clone)]
pub struct CreateRole {
    pub organization_id: u128,
    pub role_id: u128,
    pub department_id: Option<u128>,
    pub team_id: Option<u128>,
    pub title: String,
    pub code: String,
    pub role_type: RoleType,
}

/// Command: deprecate a role.
#[derive(Debug, Clone)]
pub struct DeprecateRole {
    pub organization_id: u128,
    pub role_id: u128,
    pub reason: String,
    pub replacement_role_id: Option<u128>,
}

/// Command: create a facility.
#[derive(Debug, Clone)]
pub struct CreateFacility {
    pub organization_id: u128,
    pub facility_id: u128,
    pub name: String,
    pub code: String,
    pub facility_type: FacilityType,
    pub capacity: Option<u32>,
    pub parent_facility_id: Option<u128>,
}

/// Command: remove a facility.
#[derive(Debug, Clone)]
pub struct RemoveFacility {
    pub organization_id: u128,
    pub facility_id: u128,
    pub reason: Option<String>,
}

/// Command: dissolve the organization.
#[derive(Debug, Clone)]
pub struct DissolveOrganization {
    pub organization_id: u128,
    pub reason: String,
    pub member_disposition: MemberDisposition,
}

/// Command: merge the source organization into the target.
#[derive(Debug, Clone)]
pub struct MergeOrganizations {
    pub source_organization_id: u128,
    pub target_organization_id: u128,
    pub merger_type: MergerType,
    pub member_disposition: MemberDisposition,
}

/// The closed sum of all organization domain commands.
#[derive(Debug, Clone)]
pub enum OrganizationCommand {
    CreateOrganization(CreateOrganization),
    UpdateOrganization(UpdateOrganization),
    ChangeOrganizationStatus(ChangeOrganizationStatus),
    AddMember(AddMember),
    RemoveMember(RemoveMember),
    UpdateMemberRole(UpdateMemberRole),
    ChangeReportingRelationship(ChangeReportingRelationship),
    AddChildOrganization(AddChildOrganization),
    RemoveChildOrganization(RemoveChildOrganization),
    AddLocation(AddLocation),
    RemoveLocation(RemoveLocation),
    ChangePrimaryLocation(ChangePrimaryLocation),
    CreateDepartment(CreateDepartment),
    RestructureDepartment(RestructureDepartment),
    DissolveDepartment(DissolveDepartment),
    CreateTeam(CreateTeam),
    DisbandTeam(DisbandTeam),
    CreateRole(CreateRole),
    DeprecateRole(DeprecateRole),
    CreateFacility(CreateFacility),
    RemoveFacility(RemoveFacility),
    DissolveOrganization(DissolveOrganization),
    MergeOrganizations(MergeOrganizations),
}

/// The aggregate a command addresses; creation addresses the new aggregate's
/// chosen identifier, and a merger addresses the source organization.
pub open spec fn spec_command_aggregate_id(c: OrganizationCommand) -> u128 {
    match c {
        OrganizationCommand::CreateOrganization(cmd) => cmd.organization_id,
        OrganizationCommand::UpdateOrganization(cmd) => cmd.organization_id,
        OrganizationCommand::ChangeOrganizationStatus(cmd) => cmd.organization_id,
        OrganizationCommand::AddMember(cmd) => cmd.organization_id,
        OrganizationCommand::RemoveMember(cmd) => cmd.organization_id,
        OrganizationCommand::UpdateMemberRole(cmd) => cmd.organization_id,
        OrganizationCommand::ChangeReportingRelationship(cmd) => cmd.organization_id,
        OrganizationCommand::AddChildOrganization(cmd) => cmd.parent_organization_id,
        OrganizationCommand::RemoveChildOrganization(cmd) => cmd.parent_organization_id,
        OrganizationCommand::AddLocation(cmd) => cmd.organization_id,
        OrganizationCommand::RemoveLocation(cmd) => cmd.organization_id,
        OrganizationCommand::ChangePrimaryLocation(cmd) => cmd.organization_id,
        OrganizationCommand::CreateDepartment(cmd) => cmd.organization_id,
        OrganizationCommand::RestructureDepartment(cmd) => cmd.organization_id,
        OrganizationCommand::DissolveDepartment(cmd) => cmd.organization_id,
        OrganizationCommand::CreateTeam(cmd) => cmd.organization_id,
        OrganizationCommand::DisbandTeam(cmd) => cmd.organization_id,
        OrganizationCommand::CreateRole(cmd) => cmd.organization_id,
        OrganizationCommand::DeprecateRole(cmd) => cmd.organization_id,
        OrganizationCommand::CreateFacility(cmd) => cmd.organization_id,
        OrganizationCommand::RemoveFacility(cmd) => cmd.organization_id,
        OrganizationCommand::DissolveOrganization(cmd) => cmd.organization_id,
        OrganizationCommand::MergeOrganizations(cmd) => cmd.source_organization_id,
    }
}

impl OrganizationCommand {
    /// The aggregate this command addresses.
    pub fn aggregate_id(&self) -> (r: u128)
        ensures
            r == spec_command_aggregate_id(*self),
    {
        match self {
            OrganizationCommand::CreateOrganization(cmd) => cmd.organization_id,
            OrganizationCommand::UpdateOrganization(cmd) => cmd.organization_id,
            OrganizationCommand::ChangeOrganizationStatus(cmd) => cmd.organization_id,
            OrganizationCommand::AddMember(cmd) => cmd.organization_id,
            OrganizationCommand::RemoveMember(cmd) => cmd.organization_id,
            OrganizationCommand::UpdateMemberRole(cmd) => cmd.organization_id,
            OrganizationCommand::ChangeReportingRelationship(cmd) => cmd.organization_id,
            OrganizationCommand::AddChildOrganization(cmd) => cmd.parent_organization_id,
            OrganizationCommand::RemoveChildOrganization(cmd) => cmd.parent_organization_id,
            OrganizationCommand::AddLocation(cmd) => cmd.organization_id,
            OrganizationCommand::RemoveLocation(cmd) => cmd.organization_id,
            OrganizationCommand::ChangePrimaryLocation(cmd) => cmd.organization_id,
            OrganizationCommand::CreateDepartment(cmd) => cmd.organization_id,
            OrganizationCommand::RestructureDepartment(cmd) => cmd.organization_id,
            OrganizationCommand::DissolveDepartment(cmd) => cmd.organization_id,
            OrganizationCommand::CreateTeam(cmd) => cmd.organization_id,
            OrganizationCommand::DisbandTeam(cmd) => cmd.organization_id,
            OrganizationCommand::CreateRole(cmd) => cmd.organization_id,
            OrganizationCommand::DeprecateRole(cmd) => cmd.organization_id,
            OrganizationCommand::CreateFacility(cmd) => cmd.organization_id,
            OrganizationCommand::RemoveFacility(cmd) => cmd.organization_id,
            OrganizationCommand::DissolveOrganization(cmd) => cmd.organization_id,
            OrganizationCommand::MergeOrganizations(cmd) => cmd.source_organization_id,
        }
    }
}

} // verus!
