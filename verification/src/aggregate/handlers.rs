//! Command handling for the organization aggregate.
//!
//! Every handler validates a command against the current in-memory state and
//! either returns the events describing what happened or a typed error, with
//! no partial effects and no mutation of the aggregate itself: state changes
//! only through [`super::OrganizationAggregate::apply_event`]. The contract
//! of [`super::OrganizationAggregate::handle_command`] pins, for every
//! command, exactly when it succeeds, which error it returns otherwise, and
//! the events it produces.

use vstd::prelude::*;
use crate::aggregate::{AggregateV, OrganizationAggregate};
use crate::commands::{
    AddChildOrganization, AddLocation, AddMember, ChangeOrganizationStatus,
    ChangePrimaryLocation, ChangeReportingRelationship, CreateDepartment, CreateFacility,
    CreateOrganization, CreateRole, CreateTeam, DeprecateRole, DisbandTeam, DissolveDepartment,
    DissolveOrganization, MergeOrganizations, OrganizationCommand, RemoveChildOrganization,
    RemoveFacility, RemoveLocation, RemoveMember, RestructureDepartment, UpdateMemberRole,
    UpdateOrganization,
};
use crate::entity::{transition_allowed, Department, OrganizationStatus};
use crate::errors::OrganizationError;
use crate::events;
use crate::events::OrganizationEvent;
use crate::text::{dup_opt_string, is_blank, spec_blank};
use crate::value_objects::{MemberV, OrganizationMember};

verus! {

/// Whether walking up the reporting chain from `from` reaches `target`
/// within `fuel` steps; reaching it in zero steps means `from == target`.
pub open spec fn reaches_within(
    members: Map<u128, MemberV>,
    from: u128,
    target: u128,
    fuel: nat,
) -> bool
    decreases fuel,
{
    if from == target {
        true
    } else if fuel == 0 {
        false
    } else if members.contains_key(from) && members[from].reports_to is Some {
        reaches_within(members, members[from].reports_to->0, target, (fuel - 1) as nat)
    } else {
        false
    }
}

/// Whether walking up the parent chain of departments from `from` reaches
/// `target` within `fuel` steps.
pub open spec fn dept_reaches_within(
    departments: Map<u128, Department>,
    from: u128,
    target: u128,
    fuel: nat,
) -> bool
    decreases fuel,
{
    if from == target {
        true
    } else if fuel == 0 {
        false
    } else if departments.contains_key(from) && departments[from].parent_department_id is Some {
        dept_reaches_within(
            departments,
            departments[from].parent_department_id->0,
            target,
            (fuel - 1) as nat,
        )
    } else {
        false
    }
}

/// The length of the management chain above a member, walking `reports_to`
/// links for at most `fuel` steps: zero for a member with no manager.
pub open spec fn chain_depth(members: Map<u128, MemberV>, from: u128, fuel: nat) -> nat
    decreases fuel,
{
    if fuel == 0 {
        0
    } else if members.contains_key(from) && members[from].reports_to is Some {
        1 + chain_depth(members, members[from].reports_to->0, (fuel - 1) as nat)
    } else {
        0
    }
}

/// Some member reports directly to this person.
pub open spec fn has_reports(members: Map<u128, MemberV>, person_id: u128) -> bool {
    exists|k: u128| #[trigger] members.contains_key(k) && members[k].reports_to == Some(person_id)
}

/// Outcome of a create-organization command: rejected on an aggregate that
/// already has events or with a blank name; otherwise one `Created` event
/// carrying the command's data.
pub open spec fn create_organization_post(
    v: AggregateV,
    c: CreateOrganization,
    now: u64,
    r: Result<Vec<OrganizationEvent>, OrganizationError>,
) -> bool {
    if v.version != 0 {
        r == Result::<Vec<OrganizationEvent>, OrganizationError>::Err(
            OrganizationError::AlreadyExists(c.organization_id),
        )
    } else if spec_blank(c.name@) {
        r == Result::<Vec<OrganizationEvent>, OrganizationError>::Err(
            OrganizationError::InvalidName,
        )
    } else {
        &&& r matches Ok(es)
        &&& es@.len() == 1
        &&& es@[0] matches OrganizationEvent::Created(ev)
        &&& ev.organization_id == c.organization_id
        &&& ev.name == c.name
        &&& ev.org_type == c.org_type
        &&& ev.parent_id == c.parent_id
        &&& ev.created_at == now
    }
}

/// Outcome of an update command: allowed only while the organization is
/// modifiable, with a non-blank name and an existing primary location.
pub open spec fn update_organization_post(
    v: AggregateV,
    c: UpdateOrganization,
    now: u64,
    r: Result<Vec<OrganizationEvent>, OrganizationError>,
) -> bool {
    if !(v.status == OrganizationStatus::Pending || v.status == OrganizationStatus::Active
        || v.status == OrganizationStatus::Inactive) {
        r == Result::<Vec<OrganizationEvent>, OrganizationError>::Err(
            OrganizationError::InvalidStatus(v.status),
        )
    } else if c.name matches Some(n) && spec_blank(n@) {
        r == Result::<Vec<OrganizationEvent>, OrganizationError>::Err(
            OrganizationError::InvalidName,
        )
    } else if c.primary_location_id matches Some(l) && !v.locations.contains_key(l) {
        r == Result::<Vec<OrganizationEvent>, OrganizationError>::Err(
            OrganizationError::LocationNotFound(c.primary_location_id->0),
        )
    } else {
        &&& r matches Ok(es)
        &&& es@.len() == 1
        &&& es@[0] matches OrganizationEvent::Updated(ev)
        &&& ev.organization_id == v.id
        &&& ev.name == c.name
        &&& ev.primary_location_id == c.primary_location_id
        &&& ev.updated_at == now
    }
}

/// Outcome of a status-change command: succeeds exactly when the transition
/// is an allowed edge of the state machine.
pub open spec fn change_status_post(
    v: AggregateV,
    c: ChangeOrganizationStatus,
    now: u64,
    r: Result<Vec<OrganizationEvent>, OrganizationError>,
) -> bool {
    if transition_allowed(v.status, c.new_status) {
        &&& r matches Ok(es)
        &&& es@.len() == 1
        &&& es@[0] matches OrganizationEvent::StatusChanged(ev)
        &&& ev.organization_id == v.id
        &&& ev.old_status == v.status
        &&& ev.new_status == c.new_status
        &&& ev.reason == c.reason
        &&& ev.changed_at == now
    } else {
        r == Result::<Vec<OrganizationEvent>, OrganizationError>::Err(
            OrganizationError::InvalidStatusTransition { from: v.status, to: c.new_status },
        )
    }
}

/// Outcome of an add-member command: the organization must accept members,
/// the person must be new, and the manager and department must exist.
pub open spec fn add_member_post(
    v: AggregateV,
    c: AddMember,
    now: u64,
    r: Result<Vec<OrganizationEvent>, OrganizationError>,
) -> bool {
    if !(v.status == OrganizationStatus::Pending || v.status == OrganizationStatus::Active
        || v.status == OrganizationStatus::Inactive) {
        r == Result::<Vec<OrganizationEvent>, OrganizationError>::Err(
            OrganizationError::InvalidStatus(v.status),
        )
    } else if v.members.contains_key(c.person_id) {
        r == Result::<Vec<OrganizationEvent>, OrganizationError>::Err(
            OrganizationError::MemberAlreadyExists(c.person_id),
        )
    } else if c.reports_to matches Some(m) && !v.members.contains_key(m) {
        r == Result::<Vec<OrganizationEvent>, OrganizationError>::Err(
            OrganizationError::ManagerNotFound(c.reports_to->0),
        )
    } else if c.department_id matches Some(d) && !v.departments.contains_key(d) {
        r == Result::<Vec<OrganizationEvent>, OrganizationError>::Err(
            OrganizationError::DepartmentNotFound(c.department_id->0),
        )
    } else {
        &&& r matches Ok(es)
        &&& es@.len() == 1
        &&& es@[0] matches OrganizationEvent::MemberAdded(ev)
        &&& ev.organization_id == v.id
        &&& (ev.member@ == MemberV {
            person_id: c.person_id,
            organization_id: v.id,
            role: c.role@,
            department_id: c.department_id,
            joined_at: now,
            ends_at: None,
            reports_to: c.reports_to,
        })
        &&& ev.added_at == now
    }
}

/// Outcome of a remove-member command: the member must exist and have no
/// direct reports.
pub open spec fn remove_member_post(
    v: AggregateV,
    c: RemoveMember,
    now: u64,
    r: Result<Vec<OrganizationEvent>, OrganizationError>,
) -> bool {
    if !v.members.contains_key(c.person_id) {
        r == Result::<Vec<OrganizationEvent>, OrganizationError>::Err(
            OrganizationError::MemberNotFound(c.person_id),
        )
    } else if has_reports(v.members, c.person_id) {
        r == Result::<Vec<OrganizationEvent>, OrganizationError>::Err(
            OrganizationError::HasDirectReports(c.person_id),
        )
    } else {
        &&& r matches Ok(es)
        &&& es@.len() == 1
        &&& es@[0] matches OrganizationEvent::MemberRemoved(ev)
        &&& ev.organization_id == v.id
        &&& ev.person_id == c.person_id
        &&& ev.reason == c.reason
        &&& ev.removed_at == now
    }
}

/// Outcome of a role-update command: the member must exist; the event
/// records the previous role.
pub open spec fn update_member_role_post(
    v: AggregateV,
    c: UpdateMemberRole,
    now: u64,
    r: Result<Vec<OrganizationEvent>, OrganizationError>,
) -> bool {
    if !v.members.contains_key(c.person_id) {
        r == Result::<Vec<OrganizationEvent>, OrganizationError>::Err(
            OrganizationError::MemberNotFound(c.person_id),
        )
    } else {
        &&& r matches Ok(es)
        &&& es@.len() == 1
        &&& es@[0] matches OrganizationEvent::MemberRoleUpdated(ev)
        &&& ev.organization_id == v.id
        &&& ev.person_id == c.person_id
        &&& ev.old_role@ == v.members[c.person_id].role
        &&& ev.new_role@ == c.new_role@
        &&& ev.updated_at == now
    }
}

/// Outcome of a reporting-relationship change: the member must exist; a new
/// manager must exist, must not be the member, and must not sit in the
/// member's own management chain (cycle rejection).
pub open spec fn change_reporting_post(
    v: AggregateV,
    c: ChangeReportingRelationship,
    now: u64,
    r: Result<Vec<OrganizationEvent>, OrganizationError>,
) -> bool {
    if !v.members.contains_key(c.person_id) {
        r == Result::<Vec<OrganizationEvent>, OrganizationError>::Err(
            OrganizationError::MemberNotFound(c.person_id),
        )
    } else if c.new_manager_id matches Some(m) && !v.members.contains_key(m) {
        r == Result::<Vec<OrganizationEvent>, OrganizationError>::Err(
            OrganizationError::ManagerNotFound(c.new_manager_id->0),
        )
    } else if c.new_manager_id matches Some(m) && m == c.person_id {
        r == Result::<Vec<OrganizationEvent>, OrganizationError>::Err(
            OrganizationError::SelfReference(c.person_id),
        )
    } else if c.new_manager_id matches Some(m) && reaches_within(
        v.members,
        m,
        c.person_id,
        v.members.dom().len(),
    ) {
        r == Result::<Vec<OrganizationEvent>, OrganizationError>::Err(
            OrganizationError::CircularReference(c.person_id),
        )
    } else {
        &&& r matches Ok(es)
        &&& es@.len() == 1
        &&& es@[0] matches OrganizationEvent::ReportingRelationshipChanged(ev)
        &&& ev.organization_id == v.id
        &&& ev.person_id == c.person_id
        &&& ev.old_manager_id == v.members[c.person_id].reports_to
        &&& ev.new_manager_id == c.new_manager_id
        &&& ev.changed_at == now
    }
}

/// Outcome of adding a child organization: never itself, never twice.
pub open spec fn add_child_post(
    v: AggregateV,
    c: AddChildOrganization,
    now: u64,
    r: Result<Vec<OrganizationEvent>, OrganizationError>,
) -> bool {
    if c.child_organization_id == v.id {
        r == Result::<Vec<OrganizationEvent>, OrganizationError>::Err(
            OrganizationError::SelfReference(v.id),
        )
    } else if v.child_organizations.contains_key(c.child_organization_id) {
        r == Result::<Vec<OrganizationEvent>, OrganizationError>::Err(
            OrganizationError::ChildAlreadyExists(c.child_organization_id),
        )
    } else {
        &&& r matches Ok(es)
        &&& es@.len() == 1
        &&& es@[0] matches OrganizationEvent::ChildOrganizationAdded(ev)
        &&& ev.parent_id == v.id
        &&& ev.child_id == c.child_organization_id
        &&& ev.child_name == c.child_name
        &&& ev.child_type == c.child_type
        &&& ev.added_at == now
    }
}

/// Outcome of removing a child organization: it must be a child.
pub open spec fn remove_child_post(
    v: AggregateV,
    c: RemoveChildOrganization,
    now: u64,
    r: Result<Vec<OrganizationEvent>, OrganizationError>,
) -> bool {
    if !v.child_organizations.contains_key(c.child_organization_id) {
        r == Result::<Vec<OrganizationEvent>, OrganizationError>::Err(
            OrganizationError::ChildNotFound(c.child_organization_id),
        )
    } else {
        &&& r matches Ok(es)
        &&& es@.len() == 1
        &&& es@[0] matches OrganizationEvent::ChildOrganizationRemoved(ev)
        &&& ev.parent_id == v.id
        &&& ev.child_id == c.child_organization_id
        &&& ev.removed_at == now
    }
}

/// Outcome of adding a location: the first location, or one explicitly
/// requested, becomes primary.
pub open spec fn add_location_post(
    v: AggregateV,
    c: AddLocation,
    now: u64,
    r: Result<Vec<OrganizationEvent>, OrganizationError>,
) -> bool {
    if v.locations.contains_key(c.location_id) {
        r == Result::<Vec<OrganizationEvent>, OrganizationError>::Err(
            OrganizationError::LocationAlreadyExists(c.location_id),
        )
    } else {
        &&& r matches Ok(es)
        &&& es@.len() == 1
        &&& es@[0] matches OrganizationEvent::LocationAdded(ev)
        &&& ev.organization_id == v.id
        &&& ev.location_id == c.location_id
        &&& ev.name == c.name
        &&& ev.address == c.address
        &&& ev.is_primary == (c.make_primary || v.locations.dom().len() == 0)
        &&& ev.added_at == now
    }
}

/// Outcome of removing a location: it must exist. Removing the primary
/// location leaves the organization with no primary location.
pub open spec fn remove_location_post(
    v: AggregateV,
    c: RemoveLocation,
    now: u64,
    r: Result<Vec<OrganizationEvent>, OrganizationError>,
) -> bool {
    if !v.locations.contains_key(c.location_id) {
        r == Result::<Vec<OrganizationEvent>, OrganizationError>::Err(
            OrganizationError::LocationNotFound(c.location_id),
        )
    } else {
        &&& r matches Ok(es)
        &&& es@.len() == 1
        &&& es@[0] matches OrganizationEvent::LocationRemoved(ev)
        &&& ev.organization_id == v.id
        &&& ev.location_id == c.location_id
        &&& ev.removed_at == now
    }
}

/// Outcome of changing the primary location: the new location must exist;
/// the event records which location was primary before, if any.
pub open spec fn change_primary_location_post(
    v: AggregateV,
    c: ChangePrimaryLocation,
    now: u64,
    r: Result<Vec<OrganizationEvent>, OrganizationError>,
) -> bool {
    if !v.locations.contains_key(c.new_location_id) {
        r == Result::<Vec<OrganizationEvent>, OrganizationError>::Err(
            OrganizationError::LocationNotFound(c.new_location_id),
        )
    } else {
        &&& r matches Ok(es)
        &&& es@.len() == 1
        &&& es@[0] matches OrganizationEvent::PrimaryLocationChanged(ev)
        &&& ev.organization_id == v.id
        &&& ev.new_location_id == c.new_location_id
        &&& (match ev.old_location_id {
            Some(o) => v.locations.contains_key(o) && v.locations[o].is_primary,
            None => forall|k: u128|
                v.locations.contains_key(k) ==> !(#[trigger] v.locations[k]).is_primary,
        })
        &&& ev.changed_at == now
    }
}

/// Outcome of creating a department: fresh identifier, existing parent.
pub open spec fn create_department_post(
    v: AggregateV,
    c: CreateDepartment,
    now: u64,
    r: Result<Vec<OrganizationEvent>, OrganizationError>,
) -> bool {
    if v.departments.contains_key(c.department_id) {
        r == Result::<Vec<OrganizationEvent>, OrganizationError>::Err(
            OrganizationError::DepartmentAlreadyExists(c.department_id),
        )
    } else if c.parent_department_id matches Some(p) && !v.departments.contains_key(p) {
        r == Result::<Vec<OrganizationEvent>, OrganizationError>::Err(
            OrganizationError::DepartmentNotFound(c.parent_department_id->0),
        )
    } else {
        &&& r matches Ok(es)
        &&& es@.len() == 1
        &&& es@[0] matches OrganizationEvent::DepartmentCreated(ev)
        &&& ev.organization_id == v.id
        &&& ev.department_id == c.department_id
        &&& ev.parent_department_id == c.parent_department_id
        &&& ev.name == c.name
        &&& ev.code == c.code
        &&& ev.occurred_at == now
    }
}

/// Outcome of restructuring a department: it must exist; a new parent must
/// exist, must not be the department itself, and must not sit below it
/// (cycle rejection in the ownership graph).
pub open spec fn restructure_department_post(
    v: AggregateV,
    c: RestructureDepartment,
    now: u64,
    r: Result<Vec<OrganizationEvent>, OrganizationError>,
) -> bool {
    if !v.departments.contains_key(c.department_id) {
        r == Result::<Vec<OrganizationEvent>, OrganizationError>::Err(
            OrganizationError::DepartmentNotFound(c.department_id),
        )
    } else if c.new_parent_id matches Some(p) && p == c.department_id {
        r == Result::<Vec<OrganizationEvent>, OrganizationError>::Err(
            OrganizationError::SelfReference(c.department_id),
        )
    } else if c.new_parent_id matches Some(p) && !v.departments.contains_key(p) {
        r == Result::<Vec<OrganizationEvent>, OrganizationError>::Err(
            OrganizationError::DepartmentNotFound(c.new_parent_id->0),
        )
    } else if c.new_parent_id matches Some(p) && dept_reaches_within(
        v.departments,
        p,
        c.department_id,
        v.departments.dom().len(),
    ) {
        r == Result::<Vec<OrganizationEvent>, OrganizationError>::Err(
            OrganizationError::CircularReference(c.department_id),
        )
    } else {
        &&& r matches Ok(es)
        &&& es@.len() == 1
        &&& es@[0] matches OrganizationEvent::DepartmentRestructured(ev)
        &&& ev.organization_id == v.id
        &&& ev.department_id == c.department_id
        &&& ev.new_parent_id == c.new_parent_id
        &&& ev.restructure_type == c.restructure_type
        &&& ev.occurred_at == now
    }
}

/// Outcome of dissolving a department: it and any transfer target must exist.
pub open spec fn dissolve_department_post(
    v: AggregateV,
    c: DissolveDepartment,
    now: u64,
    r: Result<Vec<OrganizationEvent>, OrganizationError>,
) -> bool {
    if !v.departments.contains_key(c.department_id) {
        r == Result::<Vec<OrganizationEvent>, OrganizationError>::Err(
            OrganizationError::DepartmentNotFound(c.department_id),
        )
    } else if c.transfer_to matches Some(t) && !v.departments.contains_key(t) {
        r == Result::<Vec<OrganizationEvent>, OrganizationError>::Err(
            OrganizationError::DepartmentNotFound(c.transfer_to->0),
        )
    } else {
        &&& r matches Ok(es)
        &&& es@.len() == 1
        &&& es@[0] matches OrganizationEvent::DepartmentDissolved(ev)
        &&& ev.organization_id == v.id
        &&& ev.department_id == c.department_id
        &&& ev.reason == c.reason
        &&& ev.transfer_to == c.transfer_to
        &&& ev.occurred_at == now
    }
}

/// Outcome of creating a team: fresh identifier, existing department.
pub open spec fn create_team_post(
    v: AggregateV,
    c: CreateTeam,
    now: u64,
    r: Result<Vec<OrganizationEvent>, OrganizationError>,
) -> bool {
    if v.teams.contains_key(c.team_id) {
        r == Result::<Vec<OrganizationEvent>, OrganizationError>::Err(
            OrganizationError::TeamAlreadyExists(c.team_id),
        )
    } else if c.department_id matches Some(d) && !v.departments.contains_key(d) {
        r == Result::<Vec<OrganizationEvent>, OrganizationError>::Err(
            OrganizationError::DepartmentNotFound(c.department_id->0),
        )
    } else {
        &&& r matches Ok(es)
        &&& es@.len() == 1
        &&& es@[0] matches OrganizationEvent::TeamFormed(ev)
        &&& ev.organization_id == v.id
        &&& ev.team_id == c.team_id
        &&& ev.department_id == c.department_id
        &&& ev.name == c.name
        &&& ev.team_type == c.team_type
        &&& ev.occurred_at == now
    }
}

/// Outcome of disbanding a team: it and any transfer target must exist.
pub open spec fn disband_team_post(
    v: AggregateV,
    c: DisbandTeam,
    now: u64,
    r: Result<Vec<OrganizationEvent>, OrganizationError>,
) -> bool {
    if !v.teams.contains_key(c.team_id) {
        r == Result::<Vec<OrganizationEvent>, OrganizationError>::Err(
            OrganizationError::TeamNotFound(c.team_id),
        )
    } else if c.members_transfer_to matches Some(t) && !v.teams.contains_key(t) {
        r == Result::<Vec<OrganizationEvent>, OrganizationError>::Err(
            OrganizationError::TeamNotFound(c.members_transfer_to->0),
        )
    } else {
        &&& r matches Ok(es)
        &&& es@.len() == 1
        &&& es@[0] matches OrganizationEvent::TeamDisbanded(ev)
        &&& ev.organization_id == v.id
        &&& ev.team_id == c.team_id
        &&& ev.reason == c.reason
        &&& ev.members_transferred_to == c.members_transfer_to
        &&& ev.occurred_at == now
    }
}

/// Outcome of creating a role: fresh identifier, existing department and
/// team references.
pub open spec fn create_role_post(
    v: AggregateV,
    c: CreateRole,
    now: u64,
    r: Result<Vec<OrganizationEvent>, OrganizationError>,
) -> bool {
    if v.roles.contains_key(c.role_id) {
        r == Result::<Vec<OrganizationEvent>, OrganizationError>::Err(
            OrganizationError::RoleAlreadyExists(c.role_id),
        )
    } else if c.department_id matches Some(d) && !v.departments.contains_key(d) {
        r == Result::<Vec<OrganizationEvent>, OrganizationError>::Err(
            OrganizationError::DepartmentNotFound(c.department_id->0),
        )
    } else if c.team_id matches Some(t) && !v.teams.contains_key(t) {
        r == Result::<Vec<OrganizationEvent>, OrganizationError>::Err(
            OrganizationError::TeamNotFound(c.team_id->0),
        )
    } else {
        &&& r matches Ok(es)
        &&& es@.len() == 1
        &&& es@[0] matches OrganizationEvent::RoleCreated(ev)
        &&& ev.organization_id == v.id
        &&& ev.role_id == c.role_id
        &&& ev.department_id == c.department_id
        &&& ev.team_id == c.team_id
        &&& ev.title == c.title
        &&& ev.code == c.code
        &&& ev.role_type == c.role_type
        &&& ev.occurred_at == now
    }
}

/// Outcome of deprecating a role: it and any replacement must exist.
pub open spec fn deprecate_role_post(
    v: AggregateV,
    c: DeprecateRole,
    now: u64,
    r: Result<Vec<OrganizationEvent>, OrganizationError>,
) -> bool {
    if !v.roles.contains_key(c.role_id) {
        r == Result::<Vec<OrganizationEvent>, OrganizationError>::Err(
            OrganizationError::RoleNotFound(c.role_id),
        )
    } else if c.replacement_role_id matches Some(t) && !v.roles.contains_key(t) {
        r == Result::<Vec<OrganizationEvent>, OrganizationError>::Err(
            OrganizationError::RoleNotFound(c.replacement_role_id->0),
        )
    } else {
        &&& r matches Ok(es)
        &&& es@.len() == 1
        &&& es@[0] matches OrganizationEvent::RoleDeprecated(ev)
        &&& ev.organization_id == v.id
        &&& ev.role_id == c.role_id
        &&& ev.reason == c.reason
        &&& ev.replacement_role_id == c.replacement_role_id
        &&& ev.occurred_at == now
    }
}

/// Outcome of creating a facility: fresh identifier, existing parent.
pub open spec fn create_facility_post(
    v: AggregateV,
    c: CreateFacility,
    now: u64,
    r: Result<Vec<OrganizationEvent>, OrganizationError>,
) -> bool {
    if v.facilities.contains_key(c.facility_id) {
        r == Result::<Vec<OrganizationEvent>, OrganizationError>::Err(
            OrganizationError::FacilityAlreadyExists(c.facility_id),
        )
    } else if c.parent_facility_id matches Some(p) && !v.facilities.contains_key(p) {
        r == Result::<Vec<OrganizationEvent>, OrganizationError>::Err(
            OrganizationError::FacilityNotFound(c.parent_facility_id->0),
        )
    } else {
        &&& r matches Ok(es)
        &&& es@.len() == 1
        &&& es@[0] matches OrganizationEvent::FacilityCreated(ev)
        &&& ev.organization_id == v.id
        &&& ev.facility_id == c.facility_id
        &&& ev.name == c.name
        &&& ev.code == c.code
        &&& ev.facility_type == c.facility_type
        &&& ev.capacity == c.capacity
        &&& ev.parent_facility_id == c.parent_facility_id
        &&& ev.occurred_at == now
    }
}

/// Outcome of removing a facility: it must exist.
pub open spec fn remove_facility_post(
    v: AggregateV,
    c: RemoveFacility,
    now: u64,
    r: Result<Vec<OrganizationEvent>, OrganizationError>,
) -> bool {
    if !v.facilities.contains_key(c.facility_id) {
        r == Result::<Vec<OrganizationEvent>, OrganizationError>::Err(
            OrganizationError::FacilityNotFound(c.facility_id),
        )
    } else {
        &&& r matches Ok(es)
        &&& es@.len() == 1
        &&& es@[0] matches OrganizationEvent::FacilityRemoved(ev)
        &&& ev.organization_id == v.id
        &&& ev.facility_id == c.facility_id
        &&& ev.reason == c.reason
        &&& ev.occurred_at == now
    }
}

/// Outcome of dissolving the organization: the status machine must allow
/// dissolution and no child organizations may remain.
pub open spec fn dissolve_post(
    v: AggregateV,
    c: DissolveOrganization,
    now: u64,
    r: Result<Vec<OrganizationEvent>, OrganizationError>,
) -> bool {
    if !transition_allowed(v.status, OrganizationStatus::Dissolved) {
        r == Result::<Vec<OrganizationEvent>, OrganizationError>::Err(
            OrganizationError::InvalidStatus(v.status),
        )
    } else if v.child_organizations.dom().len() != 0 {
        r == Result::<Vec<OrganizationEvent>, OrganizationError>::Err(
            OrganizationError::HasChildOrganizations,
        )
    } else {
        &&& r matches Ok(es)
        &&& es@.len() == 1
        &&& es@[0] matches OrganizationEvent::Dissolved(ev)
        &&& ev.organization_id == v.id
        &&& ev.reason == c.reason
        &&& ev.member_disposition == c.member_disposition
        &&& ev.dissolved_at == now
    }
}

/// Outcome of merging this (source) organization into a target: never
/// itself, and the status machine must allow the merged state.
pub open spec fn merge_post(
    v: AggregateV,
    c: MergeOrganizations,
    now: u64,
    r: Result<Vec<OrganizationEvent>, OrganizationError>,
) -> bool {
    if c.source_organization_id == c.target_organization_id {
        r == Result::<Vec<OrganizationEvent>, OrganizationError>::Err(
            OrganizationError::InvalidMerge,
        )
    } else if !transition_allowed(v.status, OrganizationStatus::Merged) {
        r == Result::<Vec<OrganizationEvent>, OrganizationError>::Err(
            OrganizationError::InvalidStatusTransition {
                from: v.status,
                to: OrganizationStatus::Merged,
            },
        )
    } else {
        &&& r matches Ok(es)
        &&& es@.len() == 1
        &&& es@[0] matches OrganizationEvent::Merged(ev)
        &&& ev.source_organization_id == c.source_organization_id
        &&& ev.target_organization_id == c.target_organization_id
        &&& ev.merger_type == c.merger_type
        &&& ev.member_disposition == c.member_disposition
        &&& ev.merged_at == now
    }
}

/// What handling a command means: the per-command outcome predicate.
pub open spec fn command_post(
    v: AggregateV,
    command: OrganizationCommand,
    now: u64,
    r: Result<Vec<OrganizationEvent>, OrganizationError>,
) -> bool {
    match command {
        OrganizationCommand::CreateOrganization(c) => create_organization_post(v, c, now, r),
        OrganizationCommand::UpdateOrganization(c) => update_organization_post(v, c, now, r),
        OrganizationCommand::ChangeOrganizationStatus(c) => change_status_post(v, c, now, r),
        OrganizationCommand::AddMember(c) => add_member_post(v, c, now, r),
        OrganizationCommand::RemoveMember(c) => remove_member_post(v, c, now, r),
        OrganizationCommand::UpdateMemberRole(c) => update_member_role_post(v, c, now, r),
        OrganizationCommand::ChangeReportingRelationship(c) => change_reporting_post(v, c, now, r),
        OrganizationCommand::AddChildOrganization(c) => add_child_post(v, c, now, r),
        OrganizationCommand::RemoveChildOrganization(c) => remove_child_post(v, c, now, r),
        OrganizationCommand::AddLocation(c) => add_location_post(v, c, now, r),
        OrganizationCommand::RemoveLocation(c) => remove_location_post(v, c, now, r),
        OrganizationCommand::ChangePrimaryLocation(c) => change_primary_location_post(
            v,
            c,
            now,
            r,
        ),
        OrganizationCommand::CreateDepartment(c) => create_department_post(v, c, now, r),
        OrganizationCommand::RestructureDepartment(c) => restructure_department_post(v, c, now, r),
        OrganizationCommand::DissolveDepartment(c) => dissolve_department_post(v, c, now, r),
        OrganizationCommand::CreateTeam(c) => create_team_post(v, c, now, r),
        OrganizationCommand::DisbandTeam(c) => disband_team_post(v, c, now, r),
        OrganizationCommand::CreateRole(c) => create_role_post(v, c, now, r),
        OrganizationCommand::DeprecateRole(c) => deprecate_role_post(v, c, now, r),
        OrganizationCommand::CreateFacility(c) => create_facility_post(v, c, now, r),
        OrganizationCommand::RemoveFacility(c) => remove_facility_post(v, c, now, r),
        OrganizationCommand::DissolveOrganization(c) => dissolve_post(v, c, now, r),
        OrganizationCommand::MergeOrganizations(c) => merge_post(v, c, now, r),
    }
}

impl OrganizationAggregate {
    /// Whether making `person_id` report to `potential_manager_id` would
    /// create a reporting cycle: walk the existing chain upward from the
    /// proposed manager for at most as many steps as there are members; the
    /// walk is re-run against the latest state on every check, never cached.
    pub fn would_create_circular_reporting(
        &self,
        person_id: u128,
        potential_manager_id: u128,
    ) -> (r: bool)
        ensures
            r == reaches_within(
                self@.members,
                potential_manager_id,
                person_id,
                self@.members.dom().len(),
            ),
    {
        let ghost m = self@.members;
        let mut current: u128 = potential_manager_id;
        let mut fuel: usize = self.members.len();
        loop
            invariant
                fuel <= m.dom().len(),
                m == self@.members,
                reaches_within(m, potential_manager_id, person_id, m.dom().len())
                    == reaches_within(m, current, person_id, fuel as nat),
            decreases fuel,
        {
            if current == person_id {
                return true;
            }
            if fuel == 0 {
                return false;
            }
            match self.members.get(current) {
                Some(member) => {
                    match member.reports_to {
                        Some(manager_id) => {
                            current = manager_id;
                            fuel = fuel - 1;
                        },
                        None => {
                            return false;
                        },
                    }
                },
                None => {
                    return false;
                },
            }
        }
    }

    /// Whether re-parenting `department_id` under `potential_parent_id`
    /// would create a cycle in the department hierarchy.
    pub fn would_create_department_cycle(
        &self,
        department_id: u128,
        potential_parent_id: u128,
    ) -> (r: bool)
        ensures
            r == dept_reaches_within(
                self@.departments,
                potential_parent_id,
                department_id,
                self@.departments.dom().len(),
            ),
    {
        let ghost m = self@.departments;
        let mut current: u128 = potential_parent_id;
        let mut fuel: usize = self.departments.len();
        loop
            invariant
                fuel <= m.dom().len(),
                m == self@.departments,
                dept_reaches_within(m, potential_parent_id, department_id, m.dom().len())
                    == dept_reaches_within(m, current, department_id, fuel as nat),
            decreases fuel,
        {
            if current == department_id {
                return true;
            }
            if fuel == 0 {
                return false;
            }
            match self.departments.get(current) {
                Some(dept) => {
                    match dept.parent_department_id {
                        Some(parent_id) => {
                            current = parent_id;
                            fuel = fuel - 1;
                        },
                        None => {
                            return false;
                        },
                    }
                },
                None => {
                    return false;
                },
            }
        }
    }

    /// The length of the management chain above a member: how many
    /// `reports_to` links can be followed upward, walking at most as many
    /// steps as there are members.
    pub fn management_chain_length(&self, person_id: u128) -> (r: usize)
        ensures
            r == chain_depth(self@.members, person_id, self@.members.dom().len()),
    {
        let ghost m = self@.members;
        let ghost total = m.dom().len();
        let mut current: u128 = person_id;
        let mut depth: usize = 0;
        let mut fuel: usize = self.members.len();
        loop
            invariant
                m == self@.members,
                total == m.dom().len(),
                total <= usize::MAX,
                depth + fuel == total,
                chain_depth(m, person_id, total) == depth + chain_depth(m, current, fuel as nat),
            decreases fuel,
        {
            if fuel == 0 {
                proof {
                    assert(chain_depth(m, current, 0) == 0);
                }
                return depth;
            }
            match self.members.get(current) {
                Some(member) => {
                    match member.reports_to {
                        Some(manager_id) => {
                            proof {
                                assert(chain_depth(m, current, fuel as nat) == 1 + chain_depth(
                                    m,
                                    manager_id,
                                    (fuel - 1) as nat,
                                ));
                            }
                            current = manager_id;
                            depth = depth + 1;
                            fuel = fuel - 1;
                        },
                        None => {
                            proof {
                                assert(chain_depth(m, current, fuel as nat) == 0);
                            }
                            return depth;
                        },
                    }
                },
                None => {
                    proof {
                        assert(chain_depth(m, current, fuel as nat) == 0);
                    }
                    return depth;
                },
            }
        }
    }

    /// Whether anyone reports directly to this person.
    pub fn has_direct_reports(&self, person_id: u128) -> (r: bool)
        ensures
            r == has_reports(self@.members, person_id),
    {
        let n = self.members.len();
        self.members.positions_cover_domain();
        for i in 0..n
            invariant
                n == self@.members.dom().len(),
                forall|j: int|
                    0 <= j < i ==> self@.members[#[trigger] self.members.spec_key_at(j)].reports_to
                        != Some(person_id),
                forall|k: u128|
                    self@.members.contains_key(k) <==> exists|j: int|
                        0 <= j < n && self.members.spec_key_at(j) == k,
                forall|j: int|
                    0 <= j < n ==> self@.members.contains_key(
                        #[trigger] self.members.spec_key_at(j),
                    ),
        {
            let (k, member) = self.members.entry_at(i);
            if let Some(mgr) = member.reports_to {
                if mgr == person_id {
                    proof {
                        assert(self@.members.contains_key(k) && self@.members[k].reports_to
                            == Some(person_id));
                    }
                    return true;
                }
            }
        }
        proof {
            assert forall|k: u128|
                #[trigger] self@.members.contains_key(k)
                implies self@.members[k].reports_to != Some(person_id) by {
                let j = choose|j: int| 0 <= j < n && self.members.spec_key_at(j) == k;
                assert(self@.members[self.members.spec_key_at(j)].reports_to != Some(person_id));
            }
        }
        false
    }

    /// The location currently flagged primary, if any.
    pub fn find_primary_location(&self) -> (r: Option<u128>)
        ensures
            match r {
                Some(k) => self@.locations.contains_key(k) && self@.locations[k].is_primary,
                None => forall|k: u128|
                    self@.locations.contains_key(k) ==> !(#[trigger] self@.locations[k]).is_primary,
            },
    {
        let n = self.locations.len();
        self.locations.positions_cover_domain();
        for i in 0..n
            invariant
                n == self@.locations.dom().len(),
                forall|j: int|
                    0 <= j < i ==> !self@.locations[#[trigger] self.locations.spec_key_at(
                        j,
                    )].is_primary,
                forall|k: u128|
                    self@.locations.contains_key(k) <==> exists|j: int|
                        0 <= j < n && self.locations.spec_key_at(j) == k,
                forall|j: int|
                    0 <= j < n ==> self@.locations.contains_key(
                        #[trigger] self.locations.spec_key_at(j),
                    ),
        {
            let (k, loc) = self.locations.entry_at(i);
            if loc.is_primary {
                return Some(k);
            }
        }
        proof {
            assert forall|k: u128|
                #[trigger] self@.locations.contains_key(k)
                implies !self@.locations[k].is_primary by {
                let j = choose|j: int| 0 <= j < n && self.locations.spec_key_at(j) == k;
                assert(!self@.locations[self.locations.spec_key_at(j)].is_primary);
            }
        }
        None
    }

    /// Handle a command against the current in-memory state: validate it and
    /// return the events describing what happened, or a typed error before
    /// any event is produced. Performs no mutation and no input/output.
    /// `now` is the timestamp the produced events carry.
    pub fn handle_command(&self, command: &OrganizationCommand, now: u64) -> (r: Result<
        Vec<OrganizationEvent>,
        OrganizationError,
    >)
        ensures
            command_post(self@, *command, now, r),
    {
        match command {
            OrganizationCommand::CreateOrganization(c) => {
                if self.version != 0 {
                    return Err(OrganizationError::AlreadyExists(c.organization_id));
                }
                if is_blank(c.name.as_str()) {
                    return Err(OrganizationError::InvalidName);
                }
                Ok(vec![OrganizationEvent::Created(events::OrganizationCreated {
                    organization_id: c.organization_id,
                    name: c.name.clone(),
                    org_type: c.org_type,
                    parent_id: c.parent_id,
                    created_at: now,
                })])
            },
            OrganizationCommand::UpdateOrganization(c) => {
                if !self.status.can_be_modified() {
                    return Err(OrganizationError::InvalidStatus(self.status));
                }
                if let Some(n) = &c.name {
                    if is_blank(n.as_str()) {
                        return Err(OrganizationError::InvalidName);
                    }
                }
                if let Some(l) = c.primary_location_id {
                    if !self.locations.contains_key(l) {
                        return Err(OrganizationError::LocationNotFound(l));
                    }
                }
                Ok(vec![OrganizationEvent::Updated(events::OrganizationUpdated {
                    organization_id: self.id,
                    name: dup_opt_string(&c.name),
                    primary_location_id: c.primary_location_id,
                    updated_at: now,
                })])
            },
            OrganizationCommand::ChangeOrganizationStatus(c) => {
                if !self.status.can_transition_to(&c.new_status) {
                    return Err(OrganizationError::InvalidStatusTransition {
                        from: self.status,
                        to: c.new_status,
                    });
                }
                Ok(vec![OrganizationEvent::StatusChanged(events::OrganizationStatusChanged {
                    organization_id: self.id,
                    old_status: self.status,
                    new_status: c.new_status,
                    reason: dup_opt_string(&c.reason),
                    changed_at: now,
                })])
            },
            OrganizationCommand::AddMember(c) => {
                if !self.status.can_have_members() {
                    return Err(OrganizationError::InvalidStatus(self.status));
                }
                if self.members.contains_key(c.person_id) {
                    return Err(OrganizationError::MemberAlreadyExists(c.person_id));
                }
                if let Some(m) = c.reports_to {
                    if !self.members.contains_key(m) {
                        return Err(OrganizationError::ManagerNotFound(m));
                    }
                }
                if let Some(d) = c.department_id {
                    if !self.departments.contains_key(d) {
                        return Err(OrganizationError::DepartmentNotFound(d));
                    }
                }
                let member = OrganizationMember {
                    person_id: c.person_id,
                    organization_id: self.id,
                    role: c.role.duplicate(),
                    department_id: c.department_id,
                    joined_at: now,
                    ends_at: None,
                    reports_to: c.reports_to,
                };
                Ok(vec![OrganizationEvent::MemberAdded(events::MemberAdded {
                    organization_id: self.id,
                    member,
                    added_at: now,
                })])
            },
            OrganizationCommand::RemoveMember(c) => {
                if !self.members.contains_key(c.person_id) {
                    return Err(OrganizationError::MemberNotFound(c.person_id));
                }
                if self.has_direct_reports(c.person_id) {
                    return Err(OrganizationError::HasDirectReports(c.person_id));
                }
                Ok(vec![OrganizationEvent::MemberRemoved(events::MemberRemoved {
                    organization_id: self.id,
                    person_id: c.person_id,
                    reason: dup_opt_string(&c.reason),
                    removed_at: now,
                })])
            },
            OrganizationCommand::UpdateMemberRole(c) => {
                match self.members.get(c.person_id) {
                    None => Err(OrganizationError::MemberNotFound(c.person_id)),
                    Some(member) => {
                        Ok(vec![OrganizationEvent::MemberRoleUpdated(events::MemberRoleUpdated {
                            organization_id: self.id,
                            person_id: c.person_id,
                            old_role: member.role.duplicate(),
                            new_role: c.new_role.duplicate(),
                            updated_at: now,
                        })])
                    },
                }
            },
            OrganizationCommand::ChangeReportingRelationship(c) => {
                match self.members.get(c.person_id) {
                    None => Err(OrganizationError::MemberNotFound(c.person_id)),
                    Some(member) => {
                        let old_manager_id = member.reports_to;
                        if let Some(m) = c.new_manager_id {
                            if !self.members.contains_key(m) {
                                return Err(OrganizationError::ManagerNotFound(m));
                            }
                            if m == c.person_id {
                                return Err(OrganizationError::SelfReference(c.person_id));
                            }
                            if self.would_create_circular_reporting(c.person_id, m) {
                                return Err(OrganizationError::CircularReference(c.person_id));
                            }
                        }
                        Ok(vec![OrganizationEvent::ReportingRelationshipChanged(
                            events::ReportingRelationshipChanged {
                                organization_id: self.id,
                                person_id: c.person_id,
                                old_manager_id,
                                new_manager_id: c.new_manager_id,
                                changed_at: now,
                            },
                        )])
                    },
                }
            },
            OrganizationCommand::AddChildOrganization(c) => {
                if c.child_organization_id == self.id {
                    return Err(OrganizationError::SelfReference(self.id));
                }
                if self.child_organizations.contains_key(c.child_organization_id) {
                    return Err(OrganizationError::ChildAlreadyExists(c.child_organization_id));
                }
                Ok(vec![OrganizationEvent::ChildOrganizationAdded(
                    events::ChildOrganizationAdded {
                        parent_id: self.id,
                        child_id: c.child_organization_id,
                        child_name: c.child_name.clone(),
                        child_type: c.child_type,
                        added_at: now,
                    },
                )])
            },
            OrganizationCommand::RemoveChildOrganization(c) => {
                if !self.child_organizations.contains_key(c.child_organization_id) {
                    return Err(OrganizationError::ChildNotFound(c.child_organization_id));
                }
                Ok(vec![OrganizationEvent::ChildOrganizationRemoved(
                    events::ChildOrganizationRemoved {
                        parent_id: self.id,
                        child_id: c.child_organization_id,
                        removed_at: now,
                    },
                )])
            },
            OrganizationCommand::AddLocation(c) => {
                if self.locations.contains_key(c.location_id) {
                    return Err(OrganizationError::LocationAlreadyExists(c.location_id));
                }
                let is_primary = c.make_primary || self.locations.is_empty();
                Ok(vec![OrganizationEvent::LocationAdded(events::LocationAdded {
                    organization_id: self.id,
                    location_id: c.location_id,
                    name: c.name.clone(),
                    address: c.address.clone(),
                    is_primary,
                    added_at: now,
                })])
            },
            OrganizationCommand::RemoveLocation(c) => {
                if !self.locations.contains_key(c.location_id) {
                    return Err(OrganizationError::LocationNotFound(c.location_id));
                }
                Ok(vec![OrganizationEvent::LocationRemoved(events::LocationRemoved {
                    organization_id: self.id,
                    location_id: c.location_id,
                    removed_at: now,
                })])
            },
            OrganizationCommand::ChangePrimaryLocation(c) => {
                if !self.locations.contains_key(c.new_location_id) {
                    return Err(OrganizationError::LocationNotFound(c.new_location_id));
                }
                let old_location_id = self.find_primary_location();
                Ok(vec![OrganizationEvent::PrimaryLocationChanged(
                    events::PrimaryLocationChanged {
                        organization_id: self.id,
                        old_location_id,
                        new_location_id: c.new_location_id,
                        changed_at: now,
                    },
                )])
            },
            OrganizationCommand::CreateDepartment(c) => {
                if self.departments.contains_key(c.department_id) {
                    return Err(OrganizationError::DepartmentAlreadyExists(c.department_id));
                }
                if let Some(p) = c.parent_department_id {
                    if !self.departments.contains_key(p) {
                        return Err(OrganizationError::DepartmentNotFound(p));
                    }
                }
                Ok(vec![OrganizationEvent::DepartmentCreated(events::DepartmentCreated {
                    organization_id: self.id,
                    department_id: c.department_id,
                    parent_department_id: c.parent_department_id,
                    name: c.name.clone(),
                    code: c.code.clone(),
                    occurred_at: now,
                })])
            },
            OrganizationCommand::RestructureDepartment(c) => {
                if !self.departments.contains_key(c.department_id) {
                    return Err(OrganizationError::DepartmentNotFound(c.department_id));
                }
                if let Some(p) = c.new_parent_id {
                    if p == c.department_id {
                        return Err(OrganizationError::SelfReference(c.department_id));
                    }
                    if !self.departments.contains_key(p) {
                        return Err(OrganizationError::DepartmentNotFound(p));
                    }
                    if self.would_create_department_cycle(c.department_id, p) {
                        return Err(OrganizationError::CircularReference(c.department_id));
                    }
                }
                Ok(vec![OrganizationEvent::DepartmentRestructured(
                    events::DepartmentRestructured {
                        organization_id: self.id,
                        department_id: c.department_id,
                        new_parent_id: c.new_parent_id,
                        restructure_type: c.restructure_type,
                        occurred_at: now,
                    },
                )])
            },
            OrganizationCommand::DissolveDepartment(c) => {
                if !self.departments.contains_key(c.department_id) {
                    return Err(OrganizationError::DepartmentNotFound(c.department_id));
                }
                if let Some(t) = c.transfer_to {
                    if !self.departments.contains_key(t) {
                        return Err(OrganizationError::DepartmentNotFound(t));
                    }
                }
                Ok(vec![OrganizationEvent::DepartmentDissolved(events::DepartmentDissolved {
                    organization_id: self.id,
                    department_id: c.department_id,
                    reason: c.reason.clone(),
                    transfer_to: c.transfer_to,
                    occurred_at: now,
                })])
            },
            OrganizationCommand::CreateTeam(c) => {
                if self.teams.contains_key(c.team_id) {
                    return Err(OrganizationError::TeamAlreadyExists(c.team_id));
                }
                if let Some(d) = c.department_id {
                    if !self.departments.contains_key(d) {
                        return Err(OrganizationError::DepartmentNotFound(d));
                    }
                }
                Ok(vec![OrganizationEvent::TeamFormed(events::TeamFormed {
                    organization_id: self.id,
                    team_id: c.team_id,
                    department_id: c.department_id,
                    name: c.name.clone(),
                    team_type: c.team_type,
                    occurred_at: now,
                })])
            },
            OrganizationCommand::DisbandTeam(c) => {
                if !self.teams.contains_key(c.team_id) {
                    return Err(OrganizationError::TeamNotFound(c.team_id));
                }
                if let Some(t) = c.members_transfer_to {
                    if !self.teams.contains_key(t) {
                        return Err(OrganizationError::TeamNotFound(t));
                    }
                }
                Ok(vec![OrganizationEvent::TeamDisbanded(events::TeamDisbanded {
                    organization_id: self.id,
                    team_id: c.team_id,
                    reason: c.reason.clone(),
                    members_transferred_to: c.members_transfer_to,
                    occurred_at: now,
                })])
            },
            OrganizationCommand::CreateRole(c) => {
                if self.roles.contains_key(c.role_id) {
                    return Err(OrganizationError::RoleAlreadyExists(c.role_id));
                }
                if let Some(d) = c.department_id {
                    if !self.departments.contains_key(d) {
                        return Err(OrganizationError::DepartmentNotFound(d));
                    }
                }
                if let Some(t) = c.team_id {
                    if !self.teams.contains_key(t) {
                        return Err(OrganizationError::TeamNotFound(t));
                    }
                }
                Ok(vec![OrganizationEvent::RoleCreated(events::RoleCreated {
                    organization_id: self.id,
                    role_id: c.role_id,
                    department_id: c.department_id,
                    team_id: c.team_id,
                    title: c.title.clone(),
                    code: c.code.clone(),
                    role_type: c.role_type,
                    occurred_at: now,
                })])
            },
            OrganizationCommand::DeprecateRole(c) => {
                if !self.roles.contains_key(c.role_id) {
                    return Err(OrganizationError::RoleNotFound(c.role_id));
                }
                if let Some(t) = c.replacement_role_id {
                    if !self.roles.contains_key(t) {
                        return Err(OrganizationError::RoleNotFound(t));
                    }
                }
                Ok(vec![OrganizationEvent::RoleDeprecated(events::RoleDeprecated {
                    organization_id: self.id,
                    role_id: c.role_id,
                    reason: c.reason.clone(),
                    replacement_role_id: c.replacement_role_id,
                    occurred_at: now,
                })])
            },
            OrganizationCommand::CreateFacility(c) => {
                if self.facilities.contains_key(c.facility_id) {
                    return Err(OrganizationError::FacilityAlreadyExists(c.facility_id));
                }
                if let Some(p) = c.parent_facility_id {
                    if !self.facilities.contains_key(p) {
                        return Err(OrganizationError::FacilityNotFound(p));
                    }
                }
                Ok(vec![OrganizationEvent::FacilityCreated(events::FacilityCreated {
                    organization_id: self.id,
                    facility_id: c.facility_id,
                    name: c.name.clone(),
                    code: c.code.clone(),
                    facility_type: c.facility_type,
                    capacity: c.capacity,
                    parent_facility_id: c.parent_facility_id,
                    occurred_at: now,
                })])
            },
            OrganizationCommand::RemoveFacility(c) => {
                if !self.facilities.contains_key(c.facility_id) {
                    return Err(OrganizationError::FacilityNotFound(c.facility_id));
                }
                Ok(vec![OrganizationEvent::FacilityRemoved(events::FacilityRemoved {
                    organization_id: self.id,
                    facility_id: c.facility_id,
                    reason: dup_opt_string(&c.reason),
                    occurred_at: now,
                })])
            },
            OrganizationCommand::DissolveOrganization(c) => {
                if !self.status.can_transition_to(&OrganizationStatus::Dissolved) {
                    return Err(OrganizationError::InvalidStatus(self.status));
                }
                if !self.child_organizations.is_empty() {
                    return Err(OrganizationError::HasChildOrganizations);
                }
                Ok(vec![OrganizationEvent::Dissolved(events::OrganizationDissolved {
                    organization_id: self.id,
                    reason: c.reason.clone(),
                    member_disposition: c.member_disposition.duplicate(),
                    dissolved_at: now,
                })])
            },
            OrganizationCommand::MergeOrganizations(c) => {
                if c.source_organization_id == c.target_organization_id {
                    return Err(OrganizationError::InvalidMerge);
                }
                if !self.status.can_transition_to(&OrganizationStatus::Merged) {
                    return Err(OrganizationError::InvalidStatusTransition {
                        from: self.status,
                        to: OrganizationStatus::Merged,
                    });
                }
                Ok(vec![OrganizationEvent::Merged(events::OrganizationMerged {
                    source_organization_id: c.source_organization_id,
                    target_organization_id: c.target_organization_id,
                    merger_type: c.merger_type,
                    member_disposition: c.member_disposition.duplicate(),
                    merged_at: now,
                })])
            },
        }
    }
}

} // verus!
