//! Tests of the read side: views, projection updates, duplicate delivery,
//! and queries.

use organization_domain::entity::OrganizationStatus;
use organization_domain::events::{
    MemberAdded, MemberRemoved, OrganizationCreated, OrganizationEvent,
};
use organization_domain::projections::{
    InMemoryReadModelStore, MemberView, OrganizationView, ProjectionUpdater,
};
use organization_domain::queries::{
    GetOrganizationById, GetOrganizationMembers, GetOrganizationsByStatus,
    GetOrganizationsByType, OrganizationQueryHandler, SearchOrganizations,
};
use organization_domain::value_objects::{
    OrganizationMember, OrganizationRole, OrganizationType, SizeCategory,
};

fn id() -> u128 {
    uuid::Uuid::new_v4().as_u128()
}

const NOW: u64 = 1_700_000_000_000;

fn created_event(org_id: u128, name: &str) -> OrganizationEvent {
    OrganizationEvent::Created(OrganizationCreated {
        organization_id: org_id,
        name: name.to_string(),
        org_type: OrganizationType::Company,
        parent_id: None,
        created_at: NOW,
    })
}

fn member_added_event(org_id: u128, person_id: u128) -> OrganizationEvent {
    let mut member =
        OrganizationMember::new(person_id, org_id, OrganizationRole::software_engineer());
    member.joined_at = NOW;
    OrganizationEvent::MemberAdded(MemberAdded {
        organization_id: org_id,
        member,
        added_at: NOW,
    })
}

#[test]
fn test_organization_view() {
    let view = OrganizationView {
        organization_id: id(),
        name: "Test Corp".to_string(),
        org_type: OrganizationType::Company,
        status: OrganizationStatus::Active,
        parent_id: None,
        member_count: 10,
        size_category: SizeCategory::Small,
    };

    assert_eq!(view.name, "Test Corp");
    assert_eq!(view.member_count, 10);
}

#[test]
fn test_member_view() {
    let member = MemberView {
        person_id: id(),
        person_name: "John Doe".to_string(),
        role: OrganizationRole::software_engineer(),
        joined_at: NOW,
        reports_to_id: Some(id()),
        is_active: true,
    };

    assert_eq!(member.person_name, "John Doe");
    assert!(member.is_active);
}

#[test]
fn test_size_category_calculation() {
    assert_eq!(OrganizationView::calculate_size_category(0), SizeCategory::Small);
    assert_eq!(OrganizationView::calculate_size_category(10), SizeCategory::Small);
    assert_eq!(OrganizationView::calculate_size_category(11), SizeCategory::Medium);
    assert_eq!(OrganizationView::calculate_size_category(51), SizeCategory::Large);
    assert_eq!(OrganizationView::calculate_size_category(201), SizeCategory::Enterprise);
}

#[test]
fn test_projection_flow() {
    let mut updater = ProjectionUpdater::new(InMemoryReadModelStore::new());
    let org_id = id();

    updater.handle_event(&created_event(org_id, "Stats Corp")).unwrap();

    let people: Vec<u128> = (0..3).map(|_| id()).collect();
    for person in &people {
        updater.handle_event(&member_added_event(org_id, *person)).unwrap();
    }

    let handler = OrganizationQueryHandler::new(updater.into_read_store());
    let view = handler
        .get_organization_by_id(&GetOrganizationById { organization_id: org_id })
        .unwrap();
    assert_eq!(view.name, "Stats Corp");
    assert_eq!(view.status, OrganizationStatus::Active);
    assert_eq!(view.member_count, 3);
    assert_eq!(view.size_category, SizeCategory::Small);

    let members =
        handler.get_organization_members(&GetOrganizationMembers { organization_id: org_id });
    assert_eq!(members.len(), 3);
    for (person, view) in &members {
        assert!(people.contains(person));
        assert!(view.is_active);
    }
}

#[test]
fn test_projection_member_removal() {
    let mut updater = ProjectionUpdater::new(InMemoryReadModelStore::new());
    let org_id = id();
    let person = id();

    updater.handle_event(&created_event(org_id, "Shrinking Corp")).unwrap();
    updater.handle_event(&member_added_event(org_id, person)).unwrap();
    updater
        .handle_event(&OrganizationEvent::MemberRemoved(MemberRemoved {
            organization_id: org_id,
            person_id: person,
            reason: None,
            removed_at: NOW,
        }))
        .unwrap();

    let handler = OrganizationQueryHandler::new(updater.into_read_store());
    let view = handler
        .get_organization_by_id(&GetOrganizationById { organization_id: org_id })
        .unwrap();
    assert_eq!(view.member_count, 0);
    let members =
        handler.get_organization_members(&GetOrganizationMembers { organization_id: org_id });
    assert!(members.is_empty());
}

#[test]
fn test_projection_idempotent_delivery() {
    // At-least-once delivery: applying the same event twice leaves the read
    // model exactly where the first application left it.
    let mut updater = ProjectionUpdater::new(InMemoryReadModelStore::new());
    let org_id = id();
    let person = id();
    let add = member_added_event(org_id, person);

    updater.handle_event(&created_event(org_id, "Dup Corp")).unwrap();
    updater.handle_event(&add).unwrap();
    updater.handle_event(&add).unwrap();

    let handler = OrganizationQueryHandler::new(updater.into_read_store());
    let view = handler
        .get_organization_by_id(&GetOrganizationById { organization_id: org_id })
        .unwrap();
    assert_eq!(view.member_count, 1);
    let members =
        handler.get_organization_members(&GetOrganizationMembers { organization_id: org_id });
    assert_eq!(members.len(), 1);
    assert_eq!(members[0].0, person);
}

#[test]
fn test_queries_by_type_and_status() {
    let mut updater = ProjectionUpdater::new(InMemoryReadModelStore::new());
    let company_a = id();
    let company_b = id();

    updater.handle_event(&created_event(company_a, "Alpha")).unwrap();
    updater.handle_event(&created_event(company_b, "Beta")).unwrap();
    updater
        .handle_event(&OrganizationEvent::Dissolved(
            organization_domain::events::OrganizationDissolved {
                organization_id: company_b,
                reason: "closed".to_string(),
                member_disposition: organization_domain::events::MemberDisposition::Terminated,
                dissolved_at: NOW,
            },
        ))
        .unwrap();

    let handler = OrganizationQueryHandler::new(updater.into_read_store());

    let companies = handler.get_organizations_by_type(&GetOrganizationsByType {
        org_type: OrganizationType::Company,
    });
    assert_eq!(companies.len(), 2);

    let active = handler.get_organizations_by_status(&GetOrganizationsByStatus {
        status: OrganizationStatus::Active,
    });
    assert_eq!(active.len(), 1);
    assert_eq!(active[0].0, company_a);

    let dissolved_companies = handler.search_organizations(&SearchOrganizations {
        org_type_filter: Some(OrganizationType::Company),
        status_filter: Some(OrganizationStatus::Dissolved),
    });
    assert_eq!(dissolved_companies.len(), 1);
    assert_eq!(dissolved_companies[0].0, company_b);

    let none = handler.search_organizations(&SearchOrganizations {
        org_type_filter: Some(OrganizationType::Vendor),
        status_filter: None,
    });
    assert!(none.is_empty());
}

#[test]
fn test_query_creation() {
    let query = GetOrganizationById { organization_id: id() };
    assert!(query.organization_id != 0);

    let search = SearchOrganizations {
        org_type_filter: Some(OrganizationType::Company),
        status_filter: Some(OrganizationStatus::Active),
    };
    assert_eq!(search.org_type_filter, Some(OrganizationType::Company));
    assert_eq!(search.status_filter, Some(OrganizationStatus::Active));
}

#[test]
fn test_organization_statistics() {
    let mut updater = ProjectionUpdater::new(InMemoryReadModelStore::new());
    let org_id = id();
    updater.handle_event(&created_event(org_id, "Stats Inc")).unwrap();

    // Five engineers and five managers.
    for n in 0..10 {
        let role = if n < 5 {
            OrganizationRole::software_engineer()
        } else {
            OrganizationRole::engineering_manager()
        };
        let mut member = OrganizationMember::new(id(), org_id, role);
        member.joined_at = NOW;
        updater
            .handle_event(&OrganizationEvent::MemberAdded(MemberAdded {
                organization_id: org_id,
                member,
                added_at: NOW,
            }))
            .unwrap();
    }

    let handler = OrganizationQueryHandler::new(updater.into_read_store());
    let stats = handler.get_organization_statistics(
        &organization_domain::queries::GetOrganizationStatistics { organization_id: org_id },
    );
    assert_eq!(stats.total_members, 10);
    assert_eq!(stats.management_members, 5);
    assert_eq!(stats.individual_contributors, 5);
}
