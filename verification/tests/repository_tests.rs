//! Tests of the event log, snapshots, optimistic concurrency, replay and
//! the command handler, plus the event envelope and subject names.

use organization_domain::commands::{AddMember, CreateOrganization, OrganizationCommand};
use organization_domain::entity::OrganizationStatus;
use organization_domain::errors::OrganizationError;
use organization_domain::events::{
    envelope_for, MemberDisposition, MessageIdentity, OrganizationCreated, OrganizationEvent,
};
use organization_domain::nats::{
    organization_command_subject, organization_event_subject, organization_query_subject,
    organization_snapshot_subject, OrganizationSubjects,
};
use organization_domain::repository::{
    InMemoryEventStore, OrganizationCommandHandler, OrganizationRepository,
};
use organization_domain::value_objects::{OrganizationRole, OrganizationType};

fn id() -> u128 {
    uuid::Uuid::new_v4().as_u128()
}

const NOW: u64 = 1_700_000_000_000;

fn created_event(org_id: u128, name: &str) -> OrganizationEvent {
    OrganizationEvent::Created(OrganizationCreated {
        organization_id: org_id,
        name: name.to_string(),
        org_type: OrganizationType::Company,
        parent_id: None,
        created_at: NOW,
    })
}

#[test]
fn test_event_creation() {
    let event = OrganizationCreated {
        organization_id: id(),
        name: "Test Org".to_string(),
        org_type: OrganizationType::Company,
        parent_id: None,
        created_at: NOW,
    };

    assert_eq!(event.name, "Test Org");
    assert_eq!(event.org_type, OrganizationType::Company);
}

#[test]
fn test_member_disposition() {
    let disposition = MemberDisposition::TransferredTo(id());
    match disposition {
        MemberDisposition::TransferredTo(org_id) => {
            assert!(org_id != 0);
        },
        _ => panic!("Wrong disposition type"),
    }
}

#[test]
fn test_event_envelope() {
    let org_id = id();
    let event = created_event(org_id, "Enveloped Corp");
    let message_id = id();
    let identity = MessageIdentity {
        correlation_id: message_id,
        causation_id: message_id,
        message_id,
    };
    let event_id = id();
    let envelope = envelope_for(&event, identity, event_id);
    assert_eq!(envelope.event_id, event_id);
    assert_eq!(envelope.correlation_id, message_id);
    assert_eq!(envelope.causation_id, message_id);
    assert_eq!(envelope.aggregate_id, org_id);
    assert_eq!(envelope.event_type, "OrganizationCreated");
    assert_eq!(envelope.occurred_at, NOW);
}

#[test]
fn test_command_subjects() {
    let subject = organization_command_subject("create");
    assert_eq!(subject, "organization.commands.create");
}

#[test]
fn test_event_subjects() {
    let subject = organization_event_subject("created");
    assert_eq!(subject, "organization.events.created");
}

#[test]
fn test_query_subjects() {
    let subject = organization_query_subject("find_by_id");
    assert_eq!(subject, "organization.queries.find_by_id");
}

#[test]
fn test_snapshot_subjects() {
    let subject = organization_snapshot_subject("org-123");
    assert_eq!(subject, "organization.snapshots.org-123");
}

#[test]
fn test_subject_patterns() {
    assert_eq!(OrganizationSubjects::commands(), "organization.commands.>");
    assert_eq!(OrganizationSubjects::events(), "organization.events.>");
}

#[test]
fn test_optimistic_concurrency() {
    // Two executions loaded from the same version: the first save succeeds,
    // the second fails with a concurrency conflict; after reloading, the
    // second succeeds.
    let mut store = InMemoryEventStore::new();
    let org_id = id();

    assert!(store.append(org_id, 0, vec![created_event(org_id, "Race Corp")]).is_ok());

    let second = store.append(org_id, 0, vec![created_event(org_id, "Race Corp")]);
    assert_eq!(
        second.unwrap_err(),
        OrganizationError::ConcurrencyConflict { expected: 0, actual: 1 }
    );

    // Reload the current version and retry.
    let version = store.current_version(org_id) as u64;
    assert_eq!(version, 1);
    assert!(store.append(org_id, version, vec![created_event(org_id, "Race Corp")]).is_ok());
    assert_eq!(store.current_version(org_id), 2);
}

#[test]
fn test_repository_load_not_found() {
    let mut repository = OrganizationRepository::with_default_frequency();
    assert!(repository.load(id()).is_none());
}

#[test]
fn test_event_sourcing_replay() {
    // Replay determinism: the aggregate loaded from the log equals the one
    // built incrementally by separate handle and apply calls.
    let repository = OrganizationRepository::with_default_frequency();
    let mut handler = OrganizationCommandHandler::new(repository);

    let org_id = id();
    let mut incremental = OrganizationAggregateFixture::blank(org_id);

    let created = handler
        .execute(
            &OrganizationCommand::CreateOrganization(CreateOrganization {
                organization_id: org_id,
                name: "Test Corp".to_string(),
                org_type: OrganizationType::Company,
                parent_id: None,
            }),
            NOW,
        )
        .unwrap();
    incremental.apply_all(&created);

    let person_id = id();
    let added = handler
        .execute(
            &OrganizationCommand::AddMember(AddMember {
                organization_id: org_id,
                person_id,
                role: OrganizationRole::software_engineer(),
                department_id: None,
                reports_to: None,
            }),
            NOW + 1,
        )
        .unwrap();
    incremental.apply_all(&added);

    let loaded = handler.into_repository().load(org_id).unwrap();
    assert_eq!(loaded.name, "Test Corp");
    assert!(loaded.members.contains_key(person_id));
    assert_eq!(loaded.status, OrganizationStatus::Active);
    assert_eq!(loaded.version, incremental.aggregate.version);
    assert_eq!(loaded.members.len(), incremental.aggregate.members.len());
    assert_eq!(loaded.name, incremental.aggregate.name);
}

#[test]
fn test_duplicate_organization_creation_fails() {
    let repository = OrganizationRepository::with_default_frequency();
    let mut handler = OrganizationCommandHandler::new(repository);

    let org_id = id();
    let command = OrganizationCommand::CreateOrganization(CreateOrganization {
        organization_id: org_id,
        name: "Test Corp".to_string(),
        org_type: OrganizationType::Company,
        parent_id: None,
    });

    assert!(handler.execute(&command, NOW).is_ok());
    assert_eq!(
        handler.execute(&command, NOW + 1).unwrap_err(),
        OrganizationError::AlreadyExists(org_id)
    );
}

#[test]
fn test_cannot_add_member_to_nonexistent_org() {
    let repository = OrganizationRepository::with_default_frequency();
    let mut handler = OrganizationCommandHandler::new(repository);

    let org_id = id();
    let result = handler.execute(
        &OrganizationCommand::AddMember(AddMember {
            organization_id: org_id,
            person_id: id(),
            role: OrganizationRole::software_engineer(),
            department_id: None,
            reports_to: None,
        }),
        NOW,
    );
    assert_eq!(result.unwrap_err(), OrganizationError::NotFound(org_id));
}

#[test]
fn test_snapshot_and_tail_replay() {
    // With a snapshot every two events, loading after several saves goes
    // through the snapshot plus the tail of the log and yields the same
    // state as a full replay.
    let repository = OrganizationRepository::new(2);
    let mut handler = OrganizationCommandHandler::new(repository);

    let org_id = id();
    handler
        .execute(
            &OrganizationCommand::CreateOrganization(CreateOrganization {
                organization_id: org_id,
                name: "Snapshot Corp".to_string(),
                org_type: OrganizationType::Company,
                parent_id: None,
            }),
            NOW,
        )
        .unwrap();

    let mut people = Vec::new();
    for n in 0..5u64 {
        let person = id();
        people.push(person);
        handler
            .execute(
                &OrganizationCommand::AddMember(AddMember {
                    organization_id: org_id,
                    person_id: person,
                    role: OrganizationRole::software_engineer(),
                    department_id: None,
                    reports_to: None,
                }),
                NOW + n,
            )
            .unwrap();
    }

    let mut repository = handler.into_repository();
    let loaded = repository.load(org_id).unwrap();
    assert_eq!(loaded.version, 6);
    assert_eq!(loaded.name, "Snapshot Corp");
    assert_eq!(loaded.members.len(), 5);
    for person in &people {
        assert!(loaded.members.contains_key(*person));
    }

    // Loading again (the cached snapshot was consumed) still replays to the
    // same state.
    let again = repository.load(org_id).unwrap();
    assert_eq!(again.version, 6);
    assert_eq!(again.members.len(), 5);
}

/// Small helper pairing an aggregate with a loop that applies event batches.
struct OrganizationAggregateFixture {
    aggregate: organization_domain::OrganizationAggregate,
}

impl OrganizationAggregateFixture {
    fn blank(org_id: u128) -> Self {
        OrganizationAggregateFixture {
            aggregate: organization_domain::OrganizationAggregate::blank(org_id),
        }
    }

    fn apply_all(&mut self, events: &[OrganizationEvent]) {
        for event in events {
            self.aggregate.apply_event(event).unwrap();
        }
    }
}
