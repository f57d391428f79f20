//! Tests of the aggregate: command validation, event application, the
//! status state machine and cycle rejection.

use organization_domain::entity::OrganizationStatus;
use organization_domain::errors::OrganizationError;
use organization_domain::events::{MemberDisposition, MergerType, OrganizationEvent};
use organization_domain::commands::{
    AddChildOrganization, AddLocation, AddMember, ChangeOrganizationStatus,
    ChangePrimaryLocation, ChangeReportingRelationship, CreateDepartment, CreateFacility,
    CreateOrganization, CreateRole, CreateTeam, DeprecateRole, DissolveDepartment,
    DissolveOrganization, MergeOrganizations, OrganizationCommand, RemoveChildOrganization,
    RemoveFacility, RemoveLocation, RemoveMember, RestructureDepartment, UpdateMemberRole,
    UpdateOrganization,
};
use organization_domain::entity::{FacilityType, RoleStatus, RoleType};
use organization_domain::events::RestructureType;
use organization_domain::value_objects::{
    OrganizationMember, OrganizationRole, OrganizationType, RoleLevel,
};
use organization_domain::OrganizationAggregate;
use organization_domain::entity::TeamType;

fn id() -> u128 {
    uuid::Uuid::new_v4().as_u128()
}

const NOW: u64 = 1_700_000_000_000;

#[test]
fn test_create_organization() {
    let mut org = OrganizationAggregate::new(
        id(),
        "Test Corp".to_string(),
        OrganizationType::Company,
    );

    let cmd = CreateOrganization {
        organization_id: org.id,
        name: "Test Corp".to_string(),
        org_type: OrganizationType::Company,
        parent_id: None,
    };

    let events = org
        .handle_command(&OrganizationCommand::CreateOrganization(cmd), NOW)
        .unwrap();
    assert_eq!(events.len(), 1);

    if let OrganizationEvent::Created(event) = &events[0] {
        assert_eq!(event.name, "Test Corp");
        assert_eq!(event.org_type, OrganizationType::Company);
    } else {
        panic!("Expected Created event");
    }
}

#[test]
fn test_add_member() {
    let mut org = OrganizationAggregate::new(
        id(),
        "Test Corp".to_string(),
        OrganizationType::Company,
    );
    org.status = OrganizationStatus::Active;

    let person_id = id();
    let role = OrganizationRole::software_engineer();

    let cmd = AddMember {
        organization_id: org.id,
        person_id,
        role,
        department_id: None,
        reports_to: None,
    };

    let events = org
        .handle_command(&OrganizationCommand::AddMember(cmd), NOW)
        .unwrap();
    assert_eq!(events.len(), 1);

    org.apply_event(&events[0]).unwrap();
    assert_eq!(org.members.len(), 1);
    assert!(org.members.contains_key(person_id));
}

#[test]
fn test_circular_reporting_detection() {
    let mut org = OrganizationAggregate::new(
        id(),
        "Test Corp".to_string(),
        OrganizationType::Company,
    );
    org.status = OrganizationStatus::Active;

    let person_a = id();
    let person_b = id();
    let person_c = id();

    for person_id in [person_a, person_b, person_c] {
        let member = OrganizationMember::new(
            person_id,
            org.id,
            OrganizationRole::software_engineer(),
        );
        org.members.insert(person_id, member);
    }

    // Set up reporting: A -> B -> C
    let mut a = OrganizationMember::new(person_a, org.id, OrganizationRole::software_engineer());
    a.reports_to = Some(person_b);
    org.members.insert(person_a, a);
    let mut b = OrganizationMember::new(person_b, org.id, OrganizationRole::software_engineer());
    b.reports_to = Some(person_c);
    org.members.insert(person_b, b);

    // Making C report to A would close the chain into a cycle.
    assert!(org.would_create_circular_reporting(person_c, person_a));

    // Reporting to an unrelated person is allowed.
    assert!(!org.would_create_circular_reporting(person_c, id()));
}

#[test]
fn test_cycle_rejected_with_circular_reference() {
    let mut org = OrganizationAggregate::new(
        id(),
        "Chain Corp".to_string(),
        OrganizationType::Company,
    );
    org.status = OrganizationStatus::Active;

    let a = id();
    let b = id();
    let c = id();
    let d = id();

    for (person, manager) in [(c, None), (b, Some(c)), (a, Some(b)), (d, None)] {
        let mut member =
            OrganizationMember::new(person, org.id, OrganizationRole::software_engineer());
        member.reports_to = manager;
        org.members.insert(person, member);
    }

    // A reports to B reports to C: setting C's manager to A is a cycle.
    let result = org.handle_command(
        &OrganizationCommand::ChangeReportingRelationship(ChangeReportingRelationship {
            organization_id: org.id,
            person_id: c,
            new_manager_id: Some(a),
        }),
        NOW,
    );
    assert_eq!(result.unwrap_err(), OrganizationError::CircularReference(c));

    // Setting C's manager to the unrelated D succeeds.
    let events = org
        .handle_command(
            &OrganizationCommand::ChangeReportingRelationship(ChangeReportingRelationship {
                organization_id: org.id,
                person_id: c,
                new_manager_id: Some(d),
            }),
            NOW,
        )
        .unwrap();
    org.apply_event(&events[0]).unwrap();
    assert_eq!(org.members.get(c).unwrap().reports_to, Some(d));
}

#[test]
fn test_create_organization_complete_flow() {
    let mut org = OrganizationAggregate::empty();

    assert_eq!(org.status, OrganizationStatus::Pending);
    assert!(org.members.is_empty());
    assert!(org.locations.is_empty());

    let create_cmd = CreateOrganization {
        organization_id: org.id,
        name: "Acme Corporation".to_string(),
        org_type: OrganizationType::Company,
        parent_id: None,
    };

    let events = org
        .handle_command(&OrganizationCommand::CreateOrganization(create_cmd), NOW)
        .unwrap();
    assert_eq!(events.len(), 1);

    org.apply_event(&events[0]).unwrap();
    assert_eq!(org.status, OrganizationStatus::Active);
}

#[test]
fn test_organization_member_management() {
    let org_id = id();
    let mut org = OrganizationAggregate::new(
        org_id,
        "Tech Startup".to_string(),
        OrganizationType::Company,
    );
    org.status = OrganizationStatus::Active;

    // Add CEO
    let ceo_id = id();
    let add_ceo_cmd = AddMember {
        organization_id: org_id,
        person_id: ceo_id,
        role: OrganizationRole::ceo(),
        department_id: None,
        reports_to: None,
    };
    let events = org
        .handle_command(&OrganizationCommand::AddMember(add_ceo_cmd), NOW)
        .unwrap();
    org.apply_event(&events[0]).unwrap();

    assert_eq!(org.members.len(), 1);
    assert!(org.members.contains_key(ceo_id));

    // Add CTO reporting to CEO
    let cto_id = id();
    let add_cto_cmd = AddMember {
        organization_id: org_id,
        person_id: cto_id,
        role: OrganizationRole::cto(),
        department_id: None,
        reports_to: Some(ceo_id),
    };
    let events = org
        .handle_command(&OrganizationCommand::AddMember(add_cto_cmd), NOW)
        .unwrap();
    org.apply_event(&events[0]).unwrap();

    assert_eq!(org.members.len(), 2);
    let cto = org.members.get(cto_id).unwrap();
    assert_eq!(cto.reports_to, Some(ceo_id));

    // Add Engineering Manager reporting to CTO
    let eng_mgr_id = id();
    let add_mgr_cmd = AddMember {
        organization_id: org_id,
        person_id: eng_mgr_id,
        role: OrganizationRole::engineering_manager(),
        department_id: None,
        reports_to: Some(cto_id),
    };
    let events = org
        .handle_command(&OrganizationCommand::AddMember(add_mgr_cmd), NOW)
        .unwrap();
    org.apply_event(&events[0]).unwrap();

    assert_eq!(org.members.len(), 3);

    // The CEO may not report to someone in their own chain.
    let circular_cmd = ChangeReportingRelationship {
        organization_id: org_id,
        person_id: ceo_id,
        new_manager_id: Some(eng_mgr_id),
    };
    let result = org.handle_command(
        &OrganizationCommand::ChangeReportingRelationship(circular_cmd),
        NOW,
    );
    assert!(result.is_err());
}

#[test]
fn test_organization_hierarchy() {
    let company_id = id();
    let mut company = OrganizationAggregate::new(
        company_id,
        "Global Corp".to_string(),
        OrganizationType::Company,
    );
    company.status = OrganizationStatus::Active;

    let division_id = id();
    let add_division_cmd = AddChildOrganization {
        parent_organization_id: company_id,
        child_organization_id: division_id,
        child_name: "Tech Division".to_string(),
        child_type: OrganizationType::Division,
    };
    let events = company
        .handle_command(&OrganizationCommand::AddChildOrganization(add_division_cmd), NOW)
        .unwrap();
    company.apply_event(&events[0]).unwrap();
    assert!(company.child_organizations.contains_key(division_id));

    let dept_id = id();
    let mut division = OrganizationAggregate::new(
        division_id,
        "Tech Division".to_string(),
        OrganizationType::Division,
    );
    division.status = OrganizationStatus::Active;

    let add_dept_cmd = AddChildOrganization {
        parent_organization_id: division_id,
        child_organization_id: dept_id,
        child_name: "Engineering Department".to_string(),
        child_type: OrganizationType::Department,
    };
    let events = division
        .handle_command(&OrganizationCommand::AddChildOrganization(add_dept_cmd), NOW)
        .unwrap();
    division.apply_event(&events[0]).unwrap();

    // An organization may not be its own child.
    let self_ref_cmd = AddChildOrganization {
        parent_organization_id: company_id,
        child_organization_id: company_id,
        child_name: "Self Reference".to_string(),
        child_type: OrganizationType::Company,
    };
    let result =
        company.handle_command(&OrganizationCommand::AddChildOrganization(self_ref_cmd), NOW);
    assert!(result.is_err());
}

#[test]
fn test_organization_locations() {
    let org_id = id();
    let mut org = OrganizationAggregate::new(
        org_id,
        "Multi-Location Corp".to_string(),
        OrganizationType::Company,
    );
    org.status = OrganizationStatus::Active;

    // Add first location (should become primary)
    let hq_location_id = id();
    let add_hq_cmd = AddLocation {
        organization_id: org_id,
        location_id: hq_location_id,
        name: "Headquarters".to_string(),
        address: "123 Main St, City, State".to_string(),
        make_primary: false,
    };
    let events = org
        .handle_command(&OrganizationCommand::AddLocation(add_hq_cmd), NOW)
        .unwrap();
    org.apply_event(&events[0]).unwrap();

    assert_eq!(org.locations.len(), 1);
    assert!(org.locations.get(hq_location_id).unwrap().is_primary);

    // Add second location
    let branch_location_id = id();
    let add_branch_cmd = AddLocation {
        organization_id: org_id,
        location_id: branch_location_id,
        name: "Branch Office".to_string(),
        address: "456 Oak Ave, City, State".to_string(),
        make_primary: false,
    };
    let events = org
        .handle_command(&OrganizationCommand::AddLocation(add_branch_cmd), NOW)
        .unwrap();
    org.apply_event(&events[0]).unwrap();

    assert_eq!(org.locations.len(), 2);
    assert!(org.locations.get(hq_location_id).unwrap().is_primary);

    // Change primary location
    let change_primary_cmd = ChangePrimaryLocation {
        organization_id: org_id,
        new_location_id: branch_location_id,
    };
    let events = org
        .handle_command(&OrganizationCommand::ChangePrimaryLocation(change_primary_cmd), NOW)
        .unwrap();
    org.apply_event(&events[0]).unwrap();

    assert!(org.locations.get(branch_location_id).unwrap().is_primary);
    assert!(!org.locations.get(hq_location_id).unwrap().is_primary);

    // Remove the non-primary location
    let remove_cmd = RemoveLocation {
        organization_id: org_id,
        location_id: hq_location_id,
    };
    let events = org
        .handle_command(&OrganizationCommand::RemoveLocation(remove_cmd), NOW)
        .unwrap();
    for event in &events {
        org.apply_event(event).unwrap();
    }

    assert_eq!(org.locations.len(), 1);
    assert!(org.locations.get(branch_location_id).unwrap().is_primary);

    // Removing the current primary leaves no primary location.
    let remove_primary = RemoveLocation {
        organization_id: org_id,
        location_id: branch_location_id,
    };
    let events = org
        .handle_command(&OrganizationCommand::RemoveLocation(remove_primary), NOW)
        .unwrap();
    for event in &events {
        org.apply_event(event).unwrap();
    }
    assert_eq!(org.locations.len(), 0);
    assert_eq!(org.find_primary_location(), None);
}

#[test]
fn test_organization_status_transitions() {
    let org_id = id();
    let mut org = OrganizationAggregate::new(
        org_id,
        "Status Test Corp".to_string(),
        OrganizationType::Company,
    );

    assert_eq!(org.status, OrganizationStatus::Pending);
    org.status = OrganizationStatus::Active;

    // Valid transition: Active -> Inactive
    let inactive_cmd = ChangeOrganizationStatus {
        organization_id: org_id,
        new_status: OrganizationStatus::Inactive,
        reason: Some("Temporary closure".to_string()),
    };
    let events = org
        .handle_command(&OrganizationCommand::ChangeOrganizationStatus(inactive_cmd), NOW)
        .unwrap();
    org.apply_event(&events[0]).unwrap();
    assert_eq!(org.status, OrganizationStatus::Inactive);

    // Invalid transition: Inactive -> Merged (must go through Active)
    let invalid_cmd = ChangeOrganizationStatus {
        organization_id: org_id,
        new_status: OrganizationStatus::Merged,
        reason: None,
    };
    let result =
        org.handle_command(&OrganizationCommand::ChangeOrganizationStatus(invalid_cmd), NOW);
    assert!(result.is_err());

    // Valid transition: Inactive -> Active
    let reactivate_cmd = ChangeOrganizationStatus {
        organization_id: org_id,
        new_status: OrganizationStatus::Active,
        reason: Some("Reopening".to_string()),
    };
    let events = org
        .handle_command(&OrganizationCommand::ChangeOrganizationStatus(reactivate_cmd), NOW)
        .unwrap();
    org.apply_event(&events[0]).unwrap();
    assert_eq!(org.status, OrganizationStatus::Active);
}

#[test]
fn test_status_transition_matrix() {
    // The command succeeds exactly on the allowed edges of the state
    // machine; every other pair, including every self-loop, is rejected.
    let all = [
        OrganizationStatus::Pending,
        OrganizationStatus::Active,
        OrganizationStatus::Inactive,
        OrganizationStatus::Suspended,
        OrganizationStatus::Dissolved,
        OrganizationStatus::Merged,
    ];
    let allowed = [
        (OrganizationStatus::Pending, OrganizationStatus::Active),
        (OrganizationStatus::Active, OrganizationStatus::Inactive),
        (OrganizationStatus::Active, OrganizationStatus::Suspended),
        (OrganizationStatus::Active, OrganizationStatus::Dissolved),
        (OrganizationStatus::Active, OrganizationStatus::Merged),
        (OrganizationStatus::Inactive, OrganizationStatus::Active),
        (OrganizationStatus::Suspended, OrganizationStatus::Active),
        (OrganizationStatus::Suspended, OrganizationStatus::Dissolved),
    ];

    for from in all {
        for to in all {
            let expected = allowed.contains(&(from, to));
            assert_eq!(from.can_transition_to(&to), expected);

            let org_id = id();
            let mut org = OrganizationAggregate::new(
                org_id,
                "Matrix Corp".to_string(),
                OrganizationType::Company,
            );
            org.status = from;
            let result = org.handle_command(
                &OrganizationCommand::ChangeOrganizationStatus(ChangeOrganizationStatus {
                    organization_id: org_id,
                    new_status: to,
                    reason: None,
                }),
                NOW,
            );
            assert_eq!(result.is_ok(), expected);
            if !expected {
                assert_eq!(
                    result.unwrap_err(),
                    OrganizationError::InvalidStatusTransition { from, to }
                );
            }
        }
    }
}

#[test]
fn test_organization_dissolution() {
    let org_id = id();
    let mut org = OrganizationAggregate::new(
        org_id,
        "To Be Dissolved Corp".to_string(),
        OrganizationType::Company,
    );
    org.status = OrganizationStatus::Active;

    let employee_id = id();
    let add_member_cmd = AddMember {
        organization_id: org_id,
        person_id: employee_id,
        role: OrganizationRole::software_engineer(),
        department_id: None,
        reports_to: None,
    };
    let events = org
        .handle_command(&OrganizationCommand::AddMember(add_member_cmd), NOW)
        .unwrap();
    org.apply_event(&events[0]).unwrap();

    let dissolve_cmd = DissolveOrganization {
        organization_id: org_id,
        reason: "Bankruptcy".to_string(),
        member_disposition: MemberDisposition::Terminated,
    };
    let _ = org.handle_command(
        &OrganizationCommand::DissolveOrganization(dissolve_cmd.clone()),
        NOW,
    );

    org.members.clear();

    let events = org
        .handle_command(&OrganizationCommand::DissolveOrganization(dissolve_cmd), NOW)
        .unwrap();
    org.apply_event(&events[0]).unwrap();

    assert_eq!(org.status, OrganizationStatus::Dissolved);
}

#[test]
fn test_dissolution_blocked_by_children() {
    let org_id = id();
    let mut org =
        OrganizationAggregate::new(org_id, "Parent Corp".to_string(), OrganizationType::Company);
    org.status = OrganizationStatus::Active;

    let child_id = id();
    let events = org
        .handle_command(
            &OrganizationCommand::AddChildOrganization(AddChildOrganization {
                parent_organization_id: org_id,
                child_organization_id: child_id,
                child_name: "Child Corp".to_string(),
                child_type: OrganizationType::Company,
            }),
            NOW,
        )
        .unwrap();
    org.apply_event(&events[0]).unwrap();

    let result = org.handle_command(
        &OrganizationCommand::DissolveOrganization(DissolveOrganization {
            organization_id: org_id,
            reason: "Winding down".to_string(),
            member_disposition: MemberDisposition::Terminated,
        }),
        NOW,
    );
    assert_eq!(result.unwrap_err(), OrganizationError::HasChildOrganizations);

    // After removing the child, dissolution goes through.
    let events = org
        .handle_command(
            &OrganizationCommand::RemoveChildOrganization(RemoveChildOrganization {
                parent_organization_id: org_id,
                child_organization_id: child_id,
            }),
            NOW,
        )
        .unwrap();
    org.apply_event(&events[0]).unwrap();
    assert!(org
        .handle_command(
            &OrganizationCommand::DissolveOrganization(DissolveOrganization {
                organization_id: org_id,
                reason: "Winding down".to_string(),
                member_disposition: MemberDisposition::Terminated,
            }),
            NOW,
        )
        .is_ok());
}

#[test]
fn test_organization_merger() {
    let source_id = id();
    let target_id = id();

    let mut source_org = OrganizationAggregate::new(
        source_id,
        "Small Startup".to_string(),
        OrganizationType::Company,
    );
    source_org.status = OrganizationStatus::Active;

    let merge_cmd = MergeOrganizations {
        source_organization_id: source_id,
        target_organization_id: target_id,
        merger_type: MergerType::Acquisition,
        member_disposition: MemberDisposition::TransferredTo(target_id),
    };
    let events = source_org
        .handle_command(&OrganizationCommand::MergeOrganizations(merge_cmd), NOW)
        .unwrap();
    source_org.apply_event(&events[0]).unwrap();

    assert_eq!(source_org.status, OrganizationStatus::Merged);

    // Merging an organization with itself is rejected.
    let self_merge_cmd = MergeOrganizations {
        source_organization_id: source_id,
        target_organization_id: source_id,
        merger_type: MergerType::Merger,
        member_disposition: MemberDisposition::Terminated,
    };
    let result =
        source_org.handle_command(&OrganizationCommand::MergeOrganizations(self_merge_cmd), NOW);
    assert!(result.is_err());
}

#[test]
fn test_member_role_updates() {
    let org_id = id();
    let mut org = OrganizationAggregate::new(
        org_id,
        "Role Update Corp".to_string(),
        OrganizationType::Company,
    );
    org.status = OrganizationStatus::Active;

    let person_id = id();
    let mut junior_role = OrganizationRole::software_engineer();
    junior_role.level = RoleLevel::Junior;

    let add_cmd = AddMember {
        organization_id: org_id,
        person_id,
        role: junior_role,
        department_id: None,
        reports_to: None,
    };
    let events = org
        .handle_command(&OrganizationCommand::AddMember(add_cmd), NOW)
        .unwrap();
    org.apply_event(&events[0]).unwrap();

    let mut senior_role = OrganizationRole::software_engineer();
    senior_role.level = RoleLevel::Senior;
    senior_role.title = "Senior Software Engineer".to_string();

    let update_cmd = UpdateMemberRole {
        organization_id: org_id,
        person_id,
        new_role: senior_role,
    };
    let events = org
        .handle_command(&OrganizationCommand::UpdateMemberRole(update_cmd), NOW)
        .unwrap();
    org.apply_event(&events[0]).unwrap();

    let member = org.members.get(person_id).unwrap();
    assert_eq!(member.role.level, RoleLevel::Senior);
    assert_eq!(member.role.title, "Senior Software Engineer");
}

#[test]
fn test_validation_errors() {
    let org_id = id();
    let mut org =
        OrganizationAggregate::new(org_id, "Err Corp".to_string(), OrganizationType::Company);
    org.status = OrganizationStatus::Active;

    // Blank name on creation.
    let fresh = OrganizationAggregate::new(id(), String::new(), OrganizationType::Company);
    let result = fresh.handle_command(
        &OrganizationCommand::CreateOrganization(CreateOrganization {
            organization_id: fresh.id,
            name: "   ".to_string(),
            org_type: OrganizationType::Company,
            parent_id: None,
        }),
        NOW,
    );
    assert_eq!(result.unwrap_err(), OrganizationError::InvalidName);

    // Creation on an aggregate that already has events.
    let mut created = OrganizationAggregate::new(id(), String::new(), OrganizationType::Company);
    let events = created
        .handle_command(
            &OrganizationCommand::CreateOrganization(CreateOrganization {
                organization_id: created.id,
                name: "Once".to_string(),
                org_type: OrganizationType::Company,
                parent_id: None,
            }),
            NOW,
        )
        .unwrap();
    created.apply_event(&events[0]).unwrap();
    let again = created.handle_command(
        &OrganizationCommand::CreateOrganization(CreateOrganization {
            organization_id: created.id,
            name: "Twice".to_string(),
            org_type: OrganizationType::Company,
            parent_id: None,
        }),
        NOW,
    );
    assert_eq!(again.unwrap_err(), OrganizationError::AlreadyExists(created.id));

    // Unknown member.
    let ghost_person = id();
    let result = org.handle_command(
        &OrganizationCommand::RemoveMember(RemoveMember {
            organization_id: org_id,
            person_id: ghost_person,
            reason: None,
        }),
        NOW,
    );
    assert_eq!(result.unwrap_err(), OrganizationError::MemberNotFound(ghost_person));

    // Unknown manager.
    let person = id();
    let ghost_manager = id();
    let result = org.handle_command(
        &OrganizationCommand::AddMember(AddMember {
            organization_id: org_id,
            person_id: person,
            role: OrganizationRole::software_engineer(),
            department_id: None,
            reports_to: Some(ghost_manager),
        }),
        NOW,
    );
    assert_eq!(result.unwrap_err(), OrganizationError::ManagerNotFound(ghost_manager));

    // Duplicate member.
    let events = org
        .handle_command(
            &OrganizationCommand::AddMember(AddMember {
                organization_id: org_id,
                person_id: person,
                role: OrganizationRole::software_engineer(),
                department_id: None,
                reports_to: None,
            }),
            NOW,
        )
        .unwrap();
    org.apply_event(&events[0]).unwrap();
    let result = org.handle_command(
        &OrganizationCommand::AddMember(AddMember {
            organization_id: org_id,
            person_id: person,
            role: OrganizationRole::software_engineer(),
            department_id: None,
            reports_to: None,
        }),
        NOW,
    );
    assert_eq!(result.unwrap_err(), OrganizationError::MemberAlreadyExists(person));

    // Self-managed member.
    let result = org.handle_command(
        &OrganizationCommand::ChangeReportingRelationship(ChangeReportingRelationship {
            organization_id: org_id,
            person_id: person,
            new_manager_id: Some(person),
        }),
        NOW,
    );
    assert_eq!(result.unwrap_err(), OrganizationError::SelfReference(person));

    // A manager with direct reports cannot be removed.
    let report = id();
    let events = org
        .handle_command(
            &OrganizationCommand::AddMember(AddMember {
                organization_id: org_id,
                person_id: report,
                role: OrganizationRole::software_engineer(),
                department_id: None,
                reports_to: Some(person),
            }),
            NOW,
        )
        .unwrap();
    org.apply_event(&events[0]).unwrap();
    let result = org.handle_command(
        &OrganizationCommand::RemoveMember(RemoveMember {
            organization_id: org_id,
            person_id: person,
            reason: None,
        }),
        NOW,
    );
    assert_eq!(result.unwrap_err(), OrganizationError::HasDirectReports(person));

    // Unknown location.
    let ghost_location = id();
    let result = org.handle_command(
        &OrganizationCommand::ChangePrimaryLocation(ChangePrimaryLocation {
            organization_id: org_id,
            new_location_id: ghost_location,
        }),
        NOW,
    );
    assert_eq!(result.unwrap_err(), OrganizationError::LocationNotFound(ghost_location));

    // Unknown department on a team.
    let ghost_department = id();
    let result = org.handle_command(
        &OrganizationCommand::CreateTeam(CreateTeam {
            organization_id: org_id,
            team_id: id(),
            department_id: Some(ghost_department),
            name: "Platform".to_string(),
            team_type: TeamType::Permanent,
        }),
        NOW,
    );
    assert_eq!(result.unwrap_err(), OrganizationError::DepartmentNotFound(ghost_department));

    // Updates are rejected once the organization is dissolved.
    org.status = OrganizationStatus::Dissolved;
    let result = org.handle_command(
        &OrganizationCommand::UpdateOrganization(UpdateOrganization {
            organization_id: org_id,
            name: Some("New Name".to_string()),
            primary_location_id: None,
        }),
        NOW,
    );
    assert_eq!(
        result.unwrap_err(),
        OrganizationError::InvalidStatus(OrganizationStatus::Dissolved)
    );
}

#[test]
fn test_departments_and_teams() {
    let org_id = id();
    let mut org =
        OrganizationAggregate::new(org_id, "Dept Corp".to_string(), OrganizationType::Company);
    org.status = OrganizationStatus::Active;

    let dept_id = id();
    let events = org
        .handle_command(
            &OrganizationCommand::CreateDepartment(CreateDepartment {
                organization_id: org_id,
                department_id: dept_id,
                parent_department_id: None,
                name: "Engineering".to_string(),
                code: "ENG".to_string(),
            }),
            NOW,
        )
        .unwrap();
    org.apply_event(&events[0]).unwrap();
    assert!(org.departments.contains_key(dept_id));
    assert_eq!(org.departments.get(dept_id).unwrap().code, "ENG");

    let team_id = id();
    let events = org
        .handle_command(
            &OrganizationCommand::CreateTeam(CreateTeam {
                organization_id: org_id,
                team_id,
                department_id: Some(dept_id),
                name: "Platform".to_string(),
                team_type: TeamType::Permanent,
            }),
            NOW,
        )
        .unwrap();
    org.apply_event(&events[0]).unwrap();
    assert!(org.teams.contains_key(team_id));

    // Members can be placed in an existing department.
    let person = id();
    let events = org
        .handle_command(
            &OrganizationCommand::AddMember(AddMember {
                organization_id: org_id,
                person_id: person,
                role: OrganizationRole::software_engineer(),
                department_id: Some(dept_id),
                reports_to: None,
            }),
            NOW,
        )
        .unwrap();
    org.apply_event(&events[0]).unwrap();
    assert_eq!(org.members.get(person).unwrap().department_id, Some(dept_id));
}

#[test]
fn test_acme_scenario() {
    // Create "Acme" (Pending -> Active via the Created event), add a CEO,
    // add an engineer reporting to the CEO, then attempt a reporting cycle
    // and an illegal status jump.
    let org_id = id();
    let mut org =
        OrganizationAggregate::new(org_id, "Acme".to_string(), OrganizationType::Company);
    assert_eq!(org.status, OrganizationStatus::Pending);

    let events = org
        .handle_command(
            &OrganizationCommand::CreateOrganization(CreateOrganization {
                organization_id: org_id,
                name: "Acme".to_string(),
                org_type: OrganizationType::Company,
                parent_id: None,
            }),
            NOW,
        )
        .unwrap();
    org.apply_event(&events[0]).unwrap();
    assert_eq!(org.status, OrganizationStatus::Active);

    let p1 = id();
    let events = org
        .handle_command(
            &OrganizationCommand::AddMember(AddMember {
                organization_id: org_id,
                person_id: p1,
                role: OrganizationRole::ceo(),
                department_id: None,
                reports_to: None,
            }),
            NOW,
        )
        .unwrap();
    org.apply_event(&events[0]).unwrap();

    let p2 = id();
    let events = org
        .handle_command(
            &OrganizationCommand::AddMember(AddMember {
                organization_id: org_id,
                person_id: p2,
                role: OrganizationRole::software_engineer(),
                department_id: None,
                reports_to: Some(p1),
            }),
            NOW,
        )
        .unwrap();
    org.apply_event(&events[0]).unwrap();

    // P1 -> P2 would close a reporting cycle.
    let result = org.handle_command(
        &OrganizationCommand::ChangeReportingRelationship(ChangeReportingRelationship {
            organization_id: org_id,
            person_id: p1,
            new_manager_id: Some(p2),
        }),
        NOW,
    );
    assert_eq!(result.unwrap_err(), OrganizationError::CircularReference(p1));

    // A fresh organization may not jump from Pending straight to Dissolved.
    let other_id = id();
    let other =
        OrganizationAggregate::new(other_id, "Fresh".to_string(), OrganizationType::Company);
    let result = other.handle_command(
        &OrganizationCommand::ChangeOrganizationStatus(ChangeOrganizationStatus {
            organization_id: other_id,
            new_status: OrganizationStatus::Dissolved,
            reason: None,
        }),
        NOW,
    );
    assert_eq!(
        result.unwrap_err(),
        OrganizationError::InvalidStatusTransition {
            from: OrganizationStatus::Pending,
            to: OrganizationStatus::Dissolved,
        }
    );
}

#[test]
fn test_version_monotonicity() {
    // After applying n events from the empty state the version is exactly n.
    let org_id = id();
    let mut org = OrganizationAggregate::blank(org_id);
    assert_eq!(org.version, 0);

    let mut events = Vec::new();
    let created = org
        .handle_command(
            &OrganizationCommand::CreateOrganization(CreateOrganization {
                organization_id: org_id,
                name: "Counting Corp".to_string(),
                org_type: OrganizationType::Company,
                parent_id: None,
            }),
            NOW,
        )
        .unwrap();
    events.extend(created);
    org.apply_event(&events[0]).unwrap();
    assert_eq!(org.version, 1);

    for n in 0..5u64 {
        let person = id();
        let produced = org
            .handle_command(
                &OrganizationCommand::AddMember(AddMember {
                    organization_id: org_id,
                    person_id: person,
                    role: OrganizationRole::software_engineer(),
                    department_id: None,
                    reports_to: None,
                }),
                NOW + n,
            )
            .unwrap();
        for event in &produced {
            org.apply_event(event).unwrap();
        }
        assert_eq!(org.version, 2 + n);
    }
}

#[test]
fn test_department_restructure_cycle() {
    let org_id = id();
    let mut org =
        OrganizationAggregate::new(org_id, "Tree Corp".to_string(), OrganizationType::Company);
    org.status = OrganizationStatus::Active;

    // Build a chain of departments: child under middle under root.
    let root = id();
    let middle = id();
    let child = id();
    for (dept, parent) in [(root, None), (middle, Some(root)), (child, Some(middle))] {
        let events = org
            .handle_command(
                &OrganizationCommand::CreateDepartment(CreateDepartment {
                    organization_id: org_id,
                    department_id: dept,
                    parent_department_id: parent,
                    name: "Dept".to_string(),
                    code: "D".to_string(),
                }),
                NOW,
            )
            .unwrap();
        org.apply_event(&events[0]).unwrap();
    }

    // Moving the root under its own descendant closes a cycle.
    let result = org.handle_command(
        &OrganizationCommand::RestructureDepartment(RestructureDepartment {
            organization_id: org_id,
            department_id: root,
            new_parent_id: Some(child),
            restructure_type: RestructureType::Transfer,
        }),
        NOW,
    );
    assert_eq!(result.unwrap_err(), OrganizationError::CircularReference(root));

    // A department may not be its own parent.
    let result = org.handle_command(
        &OrganizationCommand::RestructureDepartment(RestructureDepartment {
            organization_id: org_id,
            department_id: middle,
            new_parent_id: Some(middle),
            restructure_type: RestructureType::Transfer,
        }),
        NOW,
    );
    assert_eq!(result.unwrap_err(), OrganizationError::SelfReference(middle));

    // Moving the child directly under the root is fine.
    let events = org
        .handle_command(
            &OrganizationCommand::RestructureDepartment(RestructureDepartment {
                organization_id: org_id,
                department_id: child,
                new_parent_id: Some(root),
                restructure_type: RestructureType::Promotion,
            }),
            NOW,
        )
        .unwrap();
    org.apply_event(&events[0]).unwrap();
    assert_eq!(
        org.departments.get(child).unwrap().parent_department_id,
        Some(root)
    );

    // Dissolving a department keeps the record but marks it dissolved.
    let events = org
        .handle_command(
            &OrganizationCommand::DissolveDepartment(DissolveDepartment {
                organization_id: org_id,
                department_id: child,
                reason: "merged into root".to_string(),
                transfer_to: Some(root),
            }),
            NOW,
        )
        .unwrap();
    org.apply_event(&events[0]).unwrap();
    assert_eq!(
        org.departments.get(child).unwrap().status,
        organization_domain::entity::DepartmentStatus::Dissolved
    );
}

#[test]
fn test_role_and_facility_lifecycle() {
    let org_id = id();
    let mut org =
        OrganizationAggregate::new(org_id, "Lifecycle Corp".to_string(), OrganizationType::Company);
    org.status = OrganizationStatus::Active;

    let role_id = id();
    let events = org
        .handle_command(
            &OrganizationCommand::CreateRole(CreateRole {
                organization_id: org_id,
                role_id,
                department_id: None,
                team_id: None,
                title: "Release Manager".to_string(),
                code: "REL".to_string(),
                role_type: RoleType::Management,
            }),
            NOW,
        )
        .unwrap();
    org.apply_event(&events[0]).unwrap();
    assert_eq!(org.roles.get(role_id).unwrap().status, RoleStatus::Active);

    // Deprecating an unknown role is rejected.
    let ghost_role = id();
    let result = org.handle_command(
        &OrganizationCommand::DeprecateRole(DeprecateRole {
            organization_id: org_id,
            role_id: ghost_role,
            reason: "unused".to_string(),
            replacement_role_id: None,
        }),
        NOW,
    );
    assert_eq!(result.unwrap_err(), OrganizationError::RoleNotFound(ghost_role));

    let events = org
        .handle_command(
            &OrganizationCommand::DeprecateRole(DeprecateRole {
                organization_id: org_id,
                role_id,
                reason: "restructured".to_string(),
                replacement_role_id: None,
            }),
            NOW,
        )
        .unwrap();
    org.apply_event(&events[0]).unwrap();
    assert_eq!(org.roles.get(role_id).unwrap().status, RoleStatus::Deprecated);

    let facility_id = id();
    let events = org
        .handle_command(
            &OrganizationCommand::CreateFacility(CreateFacility {
                organization_id: org_id,
                facility_id,
                name: "Main Office".to_string(),
                code: "HQ".to_string(),
                facility_type: FacilityType::Headquarters,
                capacity: Some(250),
                parent_facility_id: None,
            }),
            NOW,
        )
        .unwrap();
    org.apply_event(&events[0]).unwrap();
    assert!(org.facilities.contains_key(facility_id));

    let events = org
        .handle_command(
            &OrganizationCommand::RemoveFacility(RemoveFacility {
                organization_id: org_id,
                facility_id,
                reason: Some("lease ended".to_string()),
            }),
            NOW,
        )
        .unwrap();
    org.apply_event(&events[0]).unwrap();
    assert!(!org.facilities.contains_key(facility_id));
}

#[test]
fn test_update_organization() {
    let org_id = id();
    let mut org =
        OrganizationAggregate::new(org_id, "Old Name".to_string(), OrganizationType::Company);
    org.status = OrganizationStatus::Active;

    let loc_a = id();
    let loc_b = id();
    for loc in [loc_a, loc_b] {
        let events = org
            .handle_command(
                &OrganizationCommand::AddLocation(AddLocation {
                    organization_id: org_id,
                    location_id: loc,
                    name: "Office".to_string(),
                    address: "Somewhere".to_string(),
                    make_primary: false,
                }),
                NOW,
            )
            .unwrap();
        org.apply_event(&events[0]).unwrap();
    }
    assert!(org.locations.get(loc_a).unwrap().is_primary);

    // Rename and re-point the primary location in one update.
    let events = org
        .handle_command(
            &OrganizationCommand::UpdateOrganization(UpdateOrganization {
                organization_id: org_id,
                name: Some("New Name".to_string()),
                primary_location_id: Some(loc_b),
            }),
            NOW,
        )
        .unwrap();
    org.apply_event(&events[0]).unwrap();
    assert_eq!(org.name, "New Name");
    assert!(!org.locations.get(loc_a).unwrap().is_primary);
    assert!(org.locations.get(loc_b).unwrap().is_primary);

    // Updating to an unknown primary location is rejected.
    let ghost_location = id();
    let result = org.handle_command(
        &OrganizationCommand::UpdateOrganization(UpdateOrganization {
            organization_id: org_id,
            name: None,
            primary_location_id: Some(ghost_location),
        }),
        NOW,
    );
    assert_eq!(result.unwrap_err(), OrganizationError::LocationNotFound(ghost_location));
}

#[test]
fn test_direct_reports() {
    let org_id = id();
    let mut org =
        OrganizationAggregate::new(org_id, "Reports Corp".to_string(), OrganizationType::Company);
    org.status = OrganizationStatus::Active;

    let boss = id();
    let alice = id();
    let bob = id();
    let carol = id();
    for (person, manager) in [(boss, None), (alice, Some(boss)), (bob, Some(boss)), (carol, None)]
    {
        let events = org
            .handle_command(
                &OrganizationCommand::AddMember(AddMember {
                    organization_id: org_id,
                    person_id: person,
                    role: OrganizationRole::software_engineer(),
                    department_id: None,
                    reports_to: manager,
                }),
                NOW,
            )
            .unwrap();
        org.apply_event(&events[0]).unwrap();
    }

    let mut reports = org.direct_reports(boss);
    reports.sort();
    let mut expected = vec![alice, bob];
    expected.sort();
    assert_eq!(reports, expected);
    assert!(org.direct_reports(carol).is_empty());
    assert_eq!(org.member_count(), 4);
    assert!(!org.is_empty());
}

#[test]
fn test_management_chain_length() {
    let org_id = id();
    let mut org =
        OrganizationAggregate::new(org_id, "Chain Length Corp".to_string(), OrganizationType::Company);
    org.status = OrganizationStatus::Active;

    let ceo = id();
    let director = id();
    let engineer = id();
    for (person, manager) in [(ceo, None), (director, Some(ceo)), (engineer, Some(director))] {
        let events = org
            .handle_command(
                &OrganizationCommand::AddMember(AddMember {
                    organization_id: org_id,
                    person_id: person,
                    role: OrganizationRole::software_engineer(),
                    department_id: None,
                    reports_to: manager,
                }),
                NOW,
            )
            .unwrap();
        org.apply_event(&events[0]).unwrap();
    }

    assert_eq!(org.management_chain_length(ceo), 0);
    assert_eq!(org.management_chain_length(director), 1);
    assert_eq!(org.management_chain_length(engineer), 2);
    // An unknown person has no chain.
    assert_eq!(org.management_chain_length(id()), 0);
}
