//! The organization aggregate: a versioned state machine folded from events.
//!
//! Command validation lives in [`handlers`]; this module holds the state,
//! its abstract view, and deterministic event application. Applying an event
//! is a total function with no error path: an event that was legitimately
//! produced by a handler always applies cleanly, and the version rises by
//! exactly one per applied event, unconditionally.

use vstd::prelude::*;
use crate::entity::{
    Department, DepartmentStatus, Facility, FacilityStatus, OrganizationStatus, Role, RoleStatus,
    Team, TeamStatus,
};
use crate::events::OrganizationEvent;
use crate::id_map::IdMap;
use crate::ids::fresh_id;
use crate::value_objects::{MemberV, OrganizationMember, OrganizationType};

pub mod handlers;

verus! {

/// A location associated with the organization. At most one location is
/// primary at any time.
#[derive(Debug, Clone)]
pub struct OrganizationLocation {
    pub id: u128,
    pub name: String,
    pub address: String,
    pub is_primary: bool,
}

impl View for OrganizationLocation {
    type V = OrganizationLocation;

    open spec fn view(&self) -> OrganizationLocation {
        *self
    }
}

/// A weak reference to a child organization in the hierarchy; the child
/// aggregate itself is owned elsewhere.
#[derive(Debug, Clone)]
pub struct ChildOrganization {
    pub id: u128,
    pub name: String,
    pub org_type: OrganizationType,
    pub added_at: u64,
}

impl View for ChildOrganization {
    type V = ChildOrganization;

    open spec fn view(&self) -> ChildOrganization {
        *self
    }
}

/// Abstract value of an [`OrganizationAggregate`]: plain data over
/// mathematical maps, with an unbounded version counter.
pub struct AggregateV {
    pub id: u128,
    pub name: Seq<char>,
    pub org_type: OrganizationType,
    pub status: OrganizationStatus,
    pub parent_id: Option<u128>,
    pub members: Map<u128, MemberV>,
    pub locations: Map<u128, OrganizationLocation>,
    pub child_organizations: Map<u128, ChildOrganization>,
    pub departments: Map<u128, Department>,
    pub teams: Map<u128, Team>,
    pub roles: Map<u128, Role>,
    pub facilities: Map<u128, Facility>,
    pub version: nat,
}

/// The organization aggregate root. Fields are the folded state; `version`
/// counts applied events and backs optimistic concurrency on save.
#[derive(Debug)]
pub struct OrganizationAggregate {
    pub id: u128,
    pub name: String,
    pub org_type: OrganizationType,
    pub status: OrganizationStatus,
    pub parent_id: Option<u128>,
    pub members: IdMap<OrganizationMember>,
    pub locations: IdMap<OrganizationLocation>,
    pub child_organizations: IdMap<ChildOrganization>,
    pub departments: IdMap<Department>,
    pub teams: IdMap<Team>,
    pub roles: IdMap<Role>,
    pub facilities: IdMap<Facility>,
    pub version: u64,
}

impl View for OrganizationAggregate {
    type V = AggregateV;

    open spec fn view(&self) -> AggregateV {
        AggregateV {
            id: self.id,
            name: self.name@,
            org_type: self.org_type,
            status: self.status,
            parent_id: self.parent_id,
            members: self.members@,
            locations: self.locations@,
            child_organizations: self.child_organizations@,
            departments: self.departments@,
            teams: self.teams@,
            roles: self.roles@,
            facilities: self.facilities@,
            version: self.version as nat,
        }
    }
}

/// The aggregate state before any event: pending, unnamed, empty, version 0.
pub open spec fn empty_state(id: u128, org_type: OrganizationType) -> AggregateV {
    AggregateV {
        id: id,
        name: Seq::<char>::empty(),
        org_type: org_type,
        status: OrganizationStatus::Pending,
        parent_id: None,
        members: Map::empty(),
        locations: Map::empty(),
        child_organizations: Map::empty(),
        departments: Map::empty(),
        teams: Map::empty(),
        roles: Map::empty(),
        facilities: Map::empty(),
        version: 0,
    }
}

/// Re-point the primary flag: every location's `is_primary` becomes "is this
/// the chosen key". Choosing an absent key clears every primary flag.
pub open spec fn set_primary_map(
    locs: Map<u128, OrganizationLocation>,
    primary: u128,
) -> Map<u128, OrganizationLocation> {
    Map::new(
        |k: u128| locs.dom().contains(k),
        |k: u128| OrganizationLocation { is_primary: k == primary, ..locs[k] },
    )
}

/// State change denoted by one event, before the version is counted.
pub open spec fn apply_payload(v: AggregateV, e: OrganizationEvent) -> AggregateV {
    match e {
        OrganizationEvent::Created(ev) => AggregateV {
            id: ev.organization_id,
            name: ev.name@,
            org_type: ev.org_type,
            parent_id: ev.parent_id,
            status: OrganizationStatus::Active,
            ..v
        },
        OrganizationEvent::Updated(ev) => AggregateV {
            name: match ev.name {
                Some(n) => n@,
                None => v.name,
            },
            locations: match ev.primary_location_id {
                Some(l) => set_primary_map(v.locations, l),
                None => v.locations,
            },
            ..v
        },
        OrganizationEvent::StatusChanged(ev) => AggregateV { status: ev.new_status, ..v },
        OrganizationEvent::MemberAdded(ev) => AggregateV {
            members: v.members.insert(ev.member.person_id, ev.member@),
            ..v
        },
        OrganizationEvent::MemberRemoved(ev) => AggregateV {
            members: v.members.remove(ev.person_id),
            ..v
        },
        OrganizationEvent::MemberRoleUpdated(ev) => if v.members.contains_key(ev.person_id) {
            AggregateV {
                members: v.members.insert(
                    ev.person_id,
                    MemberV { role: ev.new_role@, ..v.members[ev.person_id] },
                ),
                ..v
            }
        } else {
            v
        },
        OrganizationEvent::ReportingRelationshipChanged(ev) => if v.members.contains_key(
            ev.person_id,
        ) {
            AggregateV {
                members: v.members.insert(
                    ev.person_id,
                    MemberV { reports_to: ev.new_manager_id, ..v.members[ev.person_id] },
                ),
                ..v
            }
        } else {
            v
        },
        OrganizationEvent::ChildOrganizationAdded(ev) => AggregateV {
            child_organizations: v.child_organizations.insert(
                ev.child_id,
                ChildOrganization {
                    id: ev.child_id,
                    name: ev.child_name,
                    org_type: ev.child_type,
                    added_at: ev.added_at,
                },
            ),
            ..v
        },
        OrganizationEvent::ChildOrganizationRemoved(ev) => AggregateV {
            child_organizations: v.child_organizations.remove(ev.child_id),
            ..v
        },
        OrganizationEvent::LocationAdded(ev) => AggregateV {
            locations: (if ev.is_primary {
                set_primary_map(v.locations, ev.location_id)
            } else {
                v.locations
            }).insert(
                ev.location_id,
                OrganizationLocation {
                    id: ev.location_id,
                    name: ev.name,
                    address: ev.address,
                    is_primary: ev.is_primary,
                },
            ),
            ..v
        },
        OrganizationEvent::LocationRemoved(ev) => AggregateV {
            locations: v.locations.remove(ev.location_id),
            ..v
        },
        OrganizationEvent::PrimaryLocationChanged(ev) => AggregateV {
            locations: set_primary_map(v.locations, ev.new_location_id),
            ..v
        },
        OrganizationEvent::DepartmentCreated(ev) => AggregateV {
            departments: v.departments.insert(
                ev.department_id,
                Department {
                    id: ev.department_id,
                    organization_id: ev.organization_id,
                    parent_department_id: ev.parent_department_id,
                    name: ev.name,
                    code: ev.code,
                    status: DepartmentStatus::Active,
                    created_at: ev.occurred_at,
                    updated_at: ev.occurred_at,
                },
            ),
            ..v
        },
        OrganizationEvent::DepartmentRestructured(ev) => if v.departments.contains_key(
            ev.department_id,
        ) {
            AggregateV {
                departments: v.departments.insert(
                    ev.department_id,
                    Department {
                        parent_department_id: ev.new_parent_id,
                        updated_at: ev.occurred_at,
                        ..v.departments[ev.department_id]
                    },
                ),
                ..v
            }
        } else {
            v
        },
        OrganizationEvent::DepartmentDissolved(ev) => if v.departments.contains_key(
            ev.department_id,
        ) {
            AggregateV {
                departments: v.departments.insert(
                    ev.department_id,
                    Department {
                        status: DepartmentStatus::Dissolved,
                        updated_at: ev.occurred_at,
                        ..v.departments[ev.department_id]
                    },
                ),
                ..v
            }
        } else {
            v
        },
        OrganizationEvent::TeamFormed(ev) => AggregateV {
            teams: v.teams.insert(
                ev.team_id,
                Team {
                    id: ev.team_id,
                    organization_id: ev.organization_id,
                    department_id: ev.department_id,
                    name: ev.name,
                    team_type: ev.team_type,
                    status: TeamStatus::Forming,
                    created_at: ev.occurred_at,
                    updated_at: ev.occurred_at,
                },
            ),
            ..v
        },
        OrganizationEvent::TeamDisbanded(ev) => if v.teams.contains_key(ev.team_id) {
            AggregateV {
                teams: v.teams.insert(
                    ev.team_id,
                    Team {
                        status: TeamStatus::Disbanded,
                        updated_at: ev.occurred_at,
                        ..v.teams[ev.team_id]
                    },
                ),
                ..v
            }
        } else {
            v
        },
        OrganizationEvent::RoleCreated(ev) => AggregateV {
            roles: v.roles.insert(
                ev.role_id,
                Role {
                    id: ev.role_id,
                    organization_id: ev.organization_id,
                    department_id: ev.department_id,
                    team_id: ev.team_id,
                    title: ev.title,
                    code: ev.code,
                    role_type: ev.role_type,
                    status: RoleStatus::Active,
                    created_at: ev.occurred_at,
                    updated_at: ev.occurred_at,
                },
            ),
            ..v
        },
        OrganizationEvent::RoleDeprecated(ev) => if v.roles.contains_key(ev.role_id) {
            AggregateV {
                roles: v.roles.insert(
                    ev.role_id,
                    Role {
                        status: RoleStatus::Deprecated,
                        updated_at: ev.occurred_at,
                        ..v.roles[ev.role_id]
                    },
                ),
                ..v
            }
        } else {
            v
        },
        OrganizationEvent::FacilityCreated(ev) => AggregateV {
            facilities: v.facilities.insert(
                ev.facility_id,
                Facility {
                    id: ev.facility_id,
                    organization_id: ev.organization_id,
                    name: ev.name,
                    code: ev.code,
                    facility_type: ev.facility_type,
                    capacity: ev.capacity,
                    status: FacilityStatus::Active,
                    parent_facility_id: ev.parent_facility_id,
                    created_at: ev.occurred_at,
                    updated_at: ev.occurred_at,
                },
            ),
            ..v
        },
        OrganizationEvent::FacilityRemoved(ev) => AggregateV {
            facilities: v.facilities.remove(ev.facility_id),
            ..v
        },
        OrganizationEvent::Dissolved(_) => AggregateV {
            status: OrganizationStatus::Dissolved,
            ..v
        },
        OrganizationEvent::Merged(_) => AggregateV { status: OrganizationStatus::Merged, ..v },
    }
}

/// Apply one event: the payload's state change, then the version rises by
/// exactly one. Total: every event applies to every state.
pub open spec fn spec_apply(v: AggregateV, e: OrganizationEvent) -> AggregateV {
    AggregateV { version: v.version + 1, ..apply_payload(v, e) }
}

/// Fold a sequence of events over a state, in order.
pub open spec fn fold_events(v: AggregateV, events: Seq<OrganizationEvent>) -> AggregateV
    decreases events.len(),
{
    if events.len() == 0 {
        v
    } else {
        spec_apply(fold_events(v, events.drop_last()), events.last())
    }
}

/// Replay determinism, associativity over batches: folding a concatenation
/// equals folding the first batch and then the second. Together with
/// `apply_event`'s contract, replaying a log in one pass and applying its
/// events one call at a time produce the same aggregate.
pub proof fn lemma_fold_events_concat(
    v: AggregateV,
    first: Seq<OrganizationEvent>,
    second: Seq<OrganizationEvent>,
)
    ensures
        fold_events(v, first + second) == fold_events(fold_events(v, first), second),
    decreases second.len(),
{
    if second.len() == 0 {
        assert(first + second =~= first);
    } else {
        lemma_fold_events_concat(v, first, second.drop_last());
        assert((first + second).drop_last() =~= first + second.drop_last());
        assert((first + second).last() == second.last());
    }
}

/// Version monotonicity: each applied event raises the version by exactly
/// one, so folding `n` events raises it by `n`. From the empty state the
/// version after `n` events is exactly `n`.
pub proof fn lemma_fold_events_version(v: AggregateV, events: Seq<OrganizationEvent>)
    ensures
        fold_events(v, events).version == v.version + events.len(),
    decreases events.len(),
{
    if events.len() > 0 {
        lemma_fold_events_version(v, events.drop_last());
    }
}

/// At most one location carries the primary flag.
pub open spec fn at_most_one_primary(locs: Map<u128, OrganizationLocation>) -> bool {
    forall|k1: u128, k2: u128|
        locs.dom().contains(k1) && locs.dom().contains(k2) && (#[trigger] locs[k1]).is_primary
            && (#[trigger] locs[k2]).is_primary ==> k1 == k2
}

/// The single-primary-location invariant is preserved by applying any event
/// whatsoever: location events re-point or clear the flag as a whole, and no
/// other event touches it.
pub proof fn lemma_apply_preserves_single_primary(v: AggregateV, e: OrganizationEvent)
    requires
        at_most_one_primary(v.locations),
    ensures
        at_most_one_primary(spec_apply(v, e).locations),
{
    let after = spec_apply(v, e).locations;
    match e {
        OrganizationEvent::Updated(ev) => {
            assert(at_most_one_primary(after));
        },
        OrganizationEvent::LocationAdded(ev) => {
            if ev.is_primary {
                assert forall|k1: u128, k2: u128|
                    after.dom().contains(k1) && after.dom().contains(k2)
                        && (#[trigger] after[k1]).is_primary && (#[trigger] after[k2]).is_primary
                    implies k1 == k2 by {
                    assert(after[k1].is_primary ==> k1 == ev.location_id);
                    assert(after[k2].is_primary ==> k2 == ev.location_id);
                }
            } else {
                assert forall|k1: u128, k2: u128|
                    after.dom().contains(k1) && after.dom().contains(k2)
                        && (#[trigger] after[k1]).is_primary && (#[trigger] after[k2]).is_primary
                    implies k1 == k2 by {
                    assert(k1 != ev.location_id && k2 != ev.location_id);
                }
            }
        },
        OrganizationEvent::PrimaryLocationChanged(ev) => {
            assert(at_most_one_primary(after));
        },
        _ => {
            assert(at_most_one_primary(after));
        },
    }
}

impl OrganizationAggregate {
    /// Create a new aggregate with the given identity; no events have been
    /// applied yet, so it is pending at version 0.
    pub fn new(id: u128, name: String, org_type: OrganizationType) -> (r: Self)
        ensures
            (r@ == AggregateV { name: name@, ..empty_state(id, org_type) }),
    {
        OrganizationAggregate {
            id,
            name,
            org_type,
            status: OrganizationStatus::Pending,
            parent_id: None,
            members: IdMap::new(),
            locations: IdMap::new(),
            child_organizations: IdMap::new(),
            departments: IdMap::new(),
            teams: IdMap::new(),
            roles: IdMap::new(),
            facilities: IdMap::new(),
            version: 0,
        }
    }

    /// Create an empty aggregate under a freshly minted identifier, as used
    /// when an organization is about to be created by command.
    pub fn empty() -> (r: Self)
        ensures
            (r@ == empty_state(r@.id, OrganizationType::Company)),
    {
        Self::new(fresh_id(), String::new(), OrganizationType::Company)
    }

    /// The aggregate state before any event, for a given identity.
    pub fn blank(id: u128) -> (r: Self)
        ensures
            r@ == empty_state(id, OrganizationType::Company),
    {
        Self::new(id, String::new(), OrganizationType::Company)
    }

    /// The number of members.
    pub fn member_count(&self) -> (r: usize)
        ensures
            r == self@.members.dom().len(),
    {
        self.members.len()
    }

    /// The number of associated locations.
    pub fn location_count(&self) -> (r: usize)
        ensures
            r == self@.locations.dom().len(),
    {
        self.locations.len()
    }

    /// Whether the organization has no members.
    pub fn is_empty(&self) -> (r: bool)
        ensures
            r == (self@.members.dom().len() == 0),
    {
        self.members.is_empty()
    }

    /// Exactly the members who report directly to this person.
    pub fn direct_reports(&self, person_id: u128) -> (r: Vec<u128>)
        ensures
            forall|j: int|
                0 <= j < r@.len() ==> self@.members.contains_key(#[trigger] r@[j])
                    && self@.members[r@[j]].reports_to == Some(person_id),
            forall|j1: int, j2: int| 0 <= j1 < j2 < r@.len() ==> r@[j1] != r@[j2],
            forall|k: u128|
                #[trigger] self@.members.contains_key(k) && self@.members[k].reports_to == Some(
                    person_id,
                ) ==> r@.contains(k),
    {
        let mut out: Vec<u128> = Vec::new();
        let ghost mut sources: Seq<int> = Seq::empty();
        let n = self.members.len();
        self.members.positions_cover_domain();
        for i in 0..n
            invariant
                n == self@.members.dom().len(),
                sources.len() == out@.len(),
                forall|j: int|
                    0 <= j < out@.len() ==> 0 <= #[trigger] sources[j] < i && out@[j]
                        == self.members.spec_key_at(sources[j]),
                forall|j1: int, j2: int|
                    0 <= j1 < j2 < sources.len() ==> #[trigger] sources[j1] < #[trigger] sources[j2],
                forall|j: int|
                    0 <= j < out@.len() ==> self@.members.contains_key(#[trigger] out@[j])
                        && self@.members[out@[j]].reports_to == Some(person_id),
                forall|p: int|
                    #![trigger self.members.spec_key_at(p)]
                    0 <= p < i && self@.members[self.members.spec_key_at(p)].reports_to == Some(
                        person_id,
                    ) ==> out@.contains(self.members.spec_key_at(p)),
                forall|k: u128|
                    self@.members.contains_key(k) <==> exists|p: int|
                        0 <= p < n && self.members.spec_key_at(p) == k,
                forall|p: int|
                    0 <= p < n ==> self@.members.contains_key(
                        #[trigger] self.members.spec_key_at(p),
                    ),
                forall|p1: int, p2: int|
                    0 <= p1 < p2 < n ==> self.members.spec_key_at(p1) != self.members.spec_key_at(
                        p2,
                    ),
        {
            let (k, member) = self.members.entry_at(i);
            let ghost pre = out@;
            if member.reports_to == Some(person_id) {
                out.push(k);
                proof {
                    sources = sources.push(i as int);
                }
            }
            proof {
                assert forall|p: int|
                    #![trigger self.members.spec_key_at(p)]
                    0 <= p < i + 1 && self@.members[self.members.spec_key_at(p)].reports_to
                        == Some(person_id)
                    implies out@.contains(self.members.spec_key_at(p)) by {
                    if p < i {
                        let w = choose|w: int|
                            0 <= w < pre.len() && pre[w] == self.members.spec_key_at(p);
                        assert(out@[w] == self.members.spec_key_at(p));
                    } else {
                        assert(out@[out@.len() - 1] == self.members.spec_key_at(p));
                    }
                }
            }
        }
        proof {
            assert forall|j1: int, j2: int| 0 <= j1 < j2 < out@.len()
                implies out@[j1] != out@[j2] by {
                assert(out@[j1] == self.members.spec_key_at(sources[j1]));
                assert(out@[j2] == self.members.spec_key_at(sources[j2]));
            }
            assert forall|k: u128|
                #[trigger] self@.members.contains_key(k) && self@.members[k].reports_to == Some(
                    person_id,
                ) implies out@.contains(k) by {
                let p = choose|p: int| 0 <= p < n && self.members.spec_key_at(p) == k;
                assert(out@.contains(self.members.spec_key_at(p)));
            }
        }
        out
    }

    /// Apply an event to the aggregate state. Total but for the machine
    /// limit on the version counter; the version rises by exactly one. The
    /// `Result` is kept for callers that treat replay failures as fatal, but
    /// application itself never fails.
    pub fn apply_event(&mut self, event: &OrganizationEvent) -> (r: Result<
        (),
        crate::errors::OrganizationError,
    >)
        requires
            old(self).version < u64::MAX,
        ensures
            final(self)@ == spec_apply(old(self)@, *event),
            r is Ok,
    {
        match event {
            OrganizationEvent::Created(ev) => {
                self.id = ev.organization_id;
                self.name = ev.name.clone();
                self.org_type = ev.org_type;
                self.parent_id = ev.parent_id;
                self.status = OrganizationStatus::Active;
            },
            OrganizationEvent::Updated(ev) => {
                if let Some(n) = &ev.name {
                    self.name = n.clone();
                }
                if let Some(l) = ev.primary_location_id {
                    retarget_primary(&mut self.locations, l);
                }
            },
            OrganizationEvent::StatusChanged(ev) => {
                self.status = ev.new_status;
            },
            OrganizationEvent::MemberAdded(ev) => {
                self.members.insert(ev.member.person_id, ev.member.duplicate());
            },
            OrganizationEvent::MemberRemoved(ev) => {
                let _ = self.members.remove(ev.person_id);
            },
            OrganizationEvent::MemberRoleUpdated(ev) => {
                match self.members.remove(ev.person_id) {
                    Some(m) => {
                        let mut m = m;
                        m.role = ev.new_role.duplicate();
                        self.members.insert(ev.person_id, m);
                        proof {
                            assert(self.members@ =~= old(self).members@.insert(
                                ev.person_id,
                                MemberV { role: ev.new_role@, ..old(self).members@[ev.person_id] },
                            ));
                        }
                    },
                    None => {
                        proof {
                            assert(self.members@ =~= old(self).members@);
                        }
                    },
                }
            },
            OrganizationEvent::ReportingRelationshipChanged(ev) => {
                match self.members.remove(ev.person_id) {
                    Some(m) => {
                        let mut m = m;
                        m.reports_to = ev.new_manager_id;
                        self.members.insert(ev.person_id, m);
                        proof {
                            assert(self.members@ =~= old(self).members@.insert(
                                ev.person_id,
                                MemberV {
                                    reports_to: ev.new_manager_id,
                                    ..old(self).members@[ev.person_id]
                                },
                            ));
                        }
                    },
                    None => {
                        proof {
                            assert(self.members@ =~= old(self).members@);
                        }
                    },
                }
            },
            OrganizationEvent::ChildOrganizationAdded(ev) => {
                self.child_organizations.insert(
                    ev.child_id,
                    ChildOrganization {
                        id: ev.child_id,
                        name: ev.child_name.clone(),
                        org_type: ev.child_type,
                        added_at: ev.added_at,
                    },
                );
            },
            OrganizationEvent::ChildOrganizationRemoved(ev) => {
                let _ = self.child_organizations.remove(ev.child_id);
            },
            OrganizationEvent::LocationAdded(ev) => {
                if ev.is_primary {
                    retarget_primary(&mut self.locations, ev.location_id);
                }
                self.locations.insert(
                    ev.location_id,
                    OrganizationLocation {
                        id: ev.location_id,
                        name: ev.name.clone(),
                        address: ev.address.clone(),
                        is_primary: ev.is_primary,
                    },
                );
            },
            OrganizationEvent::LocationRemoved(ev) => {
                let _ = self.locations.remove(ev.location_id);
            },
            OrganizationEvent::PrimaryLocationChanged(ev) => {
                retarget_primary(&mut self.locations, ev.new_location_id);
            },
            OrganizationEvent::DepartmentCreated(ev) => {
                self.departments.insert(
                    ev.department_id,
                    Department {
                        id: ev.department_id,
                        organization_id: ev.organization_id,
                        parent_department_id: ev.parent_department_id,
                        name: ev.name.clone(),
                        code: ev.code.clone(),
                        status: DepartmentStatus::Active,
                        created_at: ev.occurred_at,
                        updated_at: ev.occurred_at,
                    },
                );
            },
            OrganizationEvent::DepartmentRestructured(ev) => {
                match self.departments.remove(ev.department_id) {
                    Some(d) => {
                        let mut d = d;
                        d.parent_department_id = ev.new_parent_id;
                        d.updated_at = ev.occurred_at;
                        self.departments.insert(ev.department_id, d);
                        proof {
                            assert(self.departments@ =~= old(self).departments@.insert(
                                ev.department_id,
                                Department {
                                    parent_department_id: ev.new_parent_id,
                                    updated_at: ev.occurred_at,
                                    ..old(self).departments@[ev.department_id]
                                },
                            ));
                        }
                    },
                    None => {
                        proof {
                            assert(self.departments@ =~= old(self).departments@);
                        }
                    },
                }
            },
            OrganizationEvent::DepartmentDissolved(ev) => {
                match self.departments.remove(ev.department_id) {
                    Some(d) => {
                        let mut d = d;
                        d.status = DepartmentStatus::Dissolved;
                        d.updated_at = ev.occurred_at;
                        self.departments.insert(ev.department_id, d);
                        proof {
                            assert(self.departments@ =~= old(self).departments@.insert(
                                ev.department_id,
                                Department {
                                    status: DepartmentStatus::Dissolved,
                                    updated_at: ev.occurred_at,
                                    ..old(self).departments@[ev.department_id]
                                },
                            ));
                        }
                    },
                    None => {
                        proof {
                            assert(self.departments@ =~= old(self).departments@);
                        }
                    },
                }
            },
            OrganizationEvent::TeamFormed(ev) => {
                self.teams.insert(
                    ev.team_id,
                    Team {
                        id: ev.team_id,
                        organization_id: ev.organization_id,
                        department_id: ev.department_id,
                        name: ev.name.clone(),
                        team_type: ev.team_type,
                        status: TeamStatus::Forming,
                        created_at: ev.occurred_at,
                        updated_at: ev.occurred_at,
                    },
                );
            },
            OrganizationEvent::TeamDisbanded(ev) => {
                match self.teams.remove(ev.team_id) {
                    Some(t) => {
                        let mut t = t;
                        t.status = TeamStatus::Disbanded;
                        t.updated_at = ev.occurred_at;
                        self.teams.insert(ev.team_id, t);
                        proof {
                            assert(self.teams@ =~= old(self).teams@.insert(
                                ev.team_id,
                                Team {
                                    status: TeamStatus::Disbanded,
                                    updated_at: ev.occurred_at,
                                    ..old(self).teams@[ev.team_id]
                                },
                            ));
                        }
                    },
                    None => {
                        proof {
                            assert(self.teams@ =~= old(self).teams@);
                        }
                    },
                }
            },
            OrganizationEvent::RoleCreated(ev) => {
                self.roles.insert(
                    ev.role_id,
                    Role {
                        id: ev.role_id,
                        organization_id: ev.organization_id,
                        department_id: ev.department_id,
                        team_id: ev.team_id,
                        title: ev.title.clone(),
                        code: ev.code.clone(),
                        role_type: ev.role_type,
                        status: RoleStatus::Active,
                        created_at: ev.occurred_at,
                        updated_at: ev.occurred_at,
                    },
                );
            },
            OrganizationEvent::RoleDeprecated(ev) => {
                match self.roles.remove(ev.role_id) {
                    Some(role) => {
                        let mut role = role;
                        role.status = RoleStatus::Deprecated;
                        role.updated_at = ev.occurred_at;
                        self.roles.insert(ev.role_id, role);
                        proof {
                            assert(self.roles@ =~= old(self).roles@.insert(
                                ev.role_id,
                                Role {
                                    status: RoleStatus::Deprecated,
                                    updated_at: ev.occurred_at,
                                    ..old(self).roles@[ev.role_id]
                                },
                            ));
                        }
                    },
                    None => {
                        proof {
                            assert(self.roles@ =~= old(self).roles@);
                        }
                    },
                }
            },
            OrganizationEvent::FacilityCreated(ev) => {
                self.facilities.insert(
                    ev.facility_id,
                    Facility {
                        id: ev.facility_id,
                        organization_id: ev.organization_id,
                        name: ev.name.clone(),
                        code: ev.code.clone(),
                        facility_type: ev.facility_type,
                        capacity: ev.capacity,
                        status: FacilityStatus::Active,
                        parent_facility_id: ev.parent_facility_id,
                        created_at: ev.occurred_at,
                        updated_at: ev.occurred_at,
                    },
                );
            },
            OrganizationEvent::FacilityRemoved(ev) => {
                let _ = self.facilities.remove(ev.facility_id);
            },
            OrganizationEvent::Dissolved(_) => {
                self.status = OrganizationStatus::Dissolved;
            },
            OrganizationEvent::Merged(_) => {
                self.status = OrganizationStatus::Merged;
            },
        }
        self.version = self.version + 1;
        Ok(())
    }
}

/// Two events denote the same state change: applying either to any state
/// yields the same state.
pub open spec fn apply_equivalent(a: OrganizationEvent, b: OrganizationEvent) -> bool {
    forall|v: AggregateV| spec_apply(v, a) == spec_apply(v, b)
}

/// Copy an event; the copy denotes the same state change and belongs to the
/// same aggregate as the original.
pub fn duplicate_event(e: &OrganizationEvent) -> (r: OrganizationEvent)
    ensures
        apply_equivalent(r, *e),
        crate::events::spec_event_aggregate_id(r) == crate::events::spec_event_aggregate_id(*e),
{
    match e {
        OrganizationEvent::Created(ev) => OrganizationEvent::Created(
            crate::events::OrganizationCreated {
                organization_id: ev.organization_id,
                name: ev.name.clone(),
                org_type: ev.org_type,
                parent_id: ev.parent_id,
                created_at: ev.created_at,
            },
        ),
        OrganizationEvent::Updated(ev) => OrganizationEvent::Updated(
            crate::events::OrganizationUpdated {
                organization_id: ev.organization_id,
                name: crate::text::dup_opt_string(&ev.name),
                primary_location_id: ev.primary_location_id,
                updated_at: ev.updated_at,
            },
        ),
        OrganizationEvent::StatusChanged(ev) => OrganizationEvent::StatusChanged(
            crate::events::OrganizationStatusChanged {
                organization_id: ev.organization_id,
                old_status: ev.old_status,
                new_status: ev.new_status,
                reason: crate::text::dup_opt_string(&ev.reason),
                changed_at: ev.changed_at,
            },
        ),
        OrganizationEvent::MemberAdded(ev) => OrganizationEvent::MemberAdded(
            crate::events::MemberAdded {
                organization_id: ev.organization_id,
                member: ev.member.duplicate(),
                added_at: ev.added_at,
            },
        ),
        OrganizationEvent::MemberRemoved(ev) => OrganizationEvent::MemberRemoved(
            crate::events::MemberRemoved {
                organization_id: ev.organization_id,
                person_id: ev.person_id,
                reason: crate::text::dup_opt_string(&ev.reason),
                removed_at: ev.removed_at,
            },
        ),
        OrganizationEvent::MemberRoleUpdated(ev) => OrganizationEvent::MemberRoleUpdated(
            crate::events::MemberRoleUpdated {
                organization_id: ev.organization_id,
                person_id: ev.person_id,
                old_role: ev.old_role.duplicate(),
                new_role: ev.new_role.duplicate(),
                updated_at: ev.updated_at,
            },
        ),
        OrganizationEvent::ReportingRelationshipChanged(ev) => {
            OrganizationEvent::ReportingRelationshipChanged(
                crate::events::ReportingRelationshipChanged {
                    organization_id: ev.organization_id,
                    person_id: ev.person_id,
                    old_manager_id: ev.old_manager_id,
                    new_manager_id: ev.new_manager_id,
                    changed_at: ev.changed_at,
                },
            )
        },
        OrganizationEvent::ChildOrganizationAdded(ev) => OrganizationEvent::ChildOrganizationAdded(
            crate::events::ChildOrganizationAdded {
                parent_id: ev.parent_id,
                child_id: ev.child_id,
                child_name: ev.child_name.clone(),
                child_type: ev.child_type,
                added_at: ev.added_at,
            },
        ),
        OrganizationEvent::ChildOrganizationRemoved(ev) => {
            OrganizationEvent::ChildOrganizationRemoved(
                crate::events::ChildOrganizationRemoved {
                    parent_id: ev.parent_id,
                    child_id: ev.child_id,
                    removed_at: ev.removed_at,
                },
            )
        },
        OrganizationEvent::LocationAdded(ev) => OrganizationEvent::LocationAdded(
            crate::events::LocationAdded {
                organization_id: ev.organization_id,
                location_id: ev.location_id,
                name: ev.name.clone(),
                address: ev.address.clone(),
                is_primary: ev.is_primary,
                added_at: ev.added_at,
            },
        ),
        OrganizationEvent::LocationRemoved(ev) => OrganizationEvent::LocationRemoved(
            crate::events::LocationRemoved {
                organization_id: ev.organization_id,
                location_id: ev.location_id,
                removed_at: ev.removed_at,
            },
        ),
        OrganizationEvent::PrimaryLocationChanged(ev) => OrganizationEvent::PrimaryLocationChanged(
            crate::events::PrimaryLocationChanged {
                organization_id: ev.organization_id,
                old_location_id: ev.old_location_id,
                new_location_id: ev.new_location_id,
                changed_at: ev.changed_at,
            },
        ),
        OrganizationEvent::DepartmentCreated(ev) => OrganizationEvent::DepartmentCreated(
            crate::events::DepartmentCreated {
                organization_id: ev.organization_id,
                department_id: ev.department_id,
                parent_department_id: ev.parent_department_id,
                name: ev.name.clone(),
                code: ev.code.clone(),
                occurred_at: ev.occurred_at,
            },
        ),
        OrganizationEvent::DepartmentRestructured(ev) => {
            OrganizationEvent::DepartmentRestructured(
                crate::events::DepartmentRestructured {
                    organization_id: ev.organization_id,
                    department_id: ev.department_id,
                    new_parent_id: ev.new_parent_id,
                    restructure_type: ev.restructure_type,
                    occurred_at: ev.occurred_at,
                },
            )
        },
        OrganizationEvent::DepartmentDissolved(ev) => OrganizationEvent::DepartmentDissolved(
            crate::events::DepartmentDissolved {
                organization_id: ev.organization_id,
                department_id: ev.department_id,
                reason: ev.reason.clone(),
                transfer_to: ev.transfer_to,
                occurred_at: ev.occurred_at,
            },
        ),
        OrganizationEvent::TeamFormed(ev) => OrganizationEvent::TeamFormed(
            crate::events::TeamFormed {
                organization_id: ev.organization_id,
                team_id: ev.team_id,
                department_id: ev.department_id,
                name: ev.name.clone(),
                team_type: ev.team_type,
                occurred_at: ev.occurred_at,
            },
        ),
        OrganizationEvent::TeamDisbanded(ev) => OrganizationEvent::TeamDisbanded(
            crate::events::TeamDisbanded {
                organization_id: ev.organization_id,
                team_id: ev.team_id,
                reason: ev.reason.clone(),
                members_transferred_to: ev.members_transferred_to,
                occurred_at: ev.occurred_at,
            },
        ),
        OrganizationEvent::RoleCreated(ev) => OrganizationEvent::RoleCreated(
            crate::events::RoleCreated {
                organization_id: ev.organization_id,
                role_id: ev.role_id,
                department_id: ev.department_id,
                team_id: ev.team_id,
                title: ev.title.clone(),
                code: ev.code.clone(),
                role_type: ev.role_type,
                occurred_at: ev.occurred_at,
            },
        ),
        OrganizationEvent::RoleDeprecated(ev) => OrganizationEvent::RoleDeprecated(
            crate::events::RoleDeprecated {
                organization_id: ev.organization_id,
                role_id: ev.role_id,
                reason: ev.reason.clone(),
                replacement_role_id: ev.replacement_role_id,
                occurred_at: ev.occurred_at,
            },
        ),
        OrganizationEvent::FacilityCreated(ev) => OrganizationEvent::FacilityCreated(
            crate::events::FacilityCreated {
                organization_id: ev.organization_id,
                facility_id: ev.facility_id,
                name: ev.name.clone(),
                code: ev.code.clone(),
                facility_type: ev.facility_type,
                capacity: ev.capacity,
                parent_facility_id: ev.parent_facility_id,
                occurred_at: ev.occurred_at,
            },
        ),
        OrganizationEvent::FacilityRemoved(ev) => OrganizationEvent::FacilityRemoved(
            crate::events::FacilityRemoved {
                organization_id: ev.organization_id,
                facility_id: ev.facility_id,
                reason: crate::text::dup_opt_string(&ev.reason),
                occurred_at: ev.occurred_at,
            },
        ),
        OrganizationEvent::Dissolved(ev) => OrganizationEvent::Dissolved(
            crate::events::OrganizationDissolved {
                organization_id: ev.organization_id,
                reason: ev.reason.clone(),
                member_disposition: ev.member_disposition.duplicate(),
                dissolved_at: ev.dissolved_at,
            },
        ),
        OrganizationEvent::Merged(ev) => OrganizationEvent::Merged(
            crate::events::OrganizationMerged {
                source_organization_id: ev.source_organization_id,
                target_organization_id: ev.target_organization_id,
                merger_type: ev.merger_type,
                member_disposition: ev.member_disposition.duplicate(),
                merged_at: ev.merged_at,
            },
        ),
    }
}

/// Copy a batch of events; each copy denotes the same state change as its
/// original.
pub fn duplicate_events(events: &Vec<OrganizationEvent>) -> (r: Vec<OrganizationEvent>)
    ensures
        r@.len() == events@.len(),
        forall|j: int| 0 <= j < events@.len() ==> apply_equivalent(#[trigger] r@[j], events@[j]),
        forall|j: int|
            0 <= j < events@.len() ==> crate::events::spec_event_aggregate_id(#[trigger] r@[j])
                == crate::events::spec_event_aggregate_id(events@[j]),
{
    let n = events.len();
    let mut r: Vec<OrganizationEvent> = Vec::new();
    for i in 0..n
        invariant
            n == events@.len(),
            r@.len() == i,
            forall|j: int| 0 <= j < i ==> apply_equivalent(#[trigger] r@[j], events@[j]),
            forall|j: int|
                0 <= j < i ==> crate::events::spec_event_aggregate_id(#[trigger] r@[j])
                    == crate::events::spec_event_aggregate_id(events@[j]),
    {
        r.push(duplicate_event(&events[i]));
    }
    r
}

/// Folding pointwise apply-equivalent event sequences yields equal states.
pub proof fn lemma_fold_apply_equivalent(
    v: AggregateV,
    a: Seq<OrganizationEvent>,
    b: Seq<OrganizationEvent>,
)
    requires
        a.len() == b.len(),
        forall|j: int| 0 <= j < a.len() ==> apply_equivalent(#[trigger] a[j], b[j]),
    ensures
        fold_events(v, a) == fold_events(v, b),
    decreases a.len(),
{
    if a.len() > 0 {
        lemma_fold_apply_equivalent(v, a.drop_last(), b.drop_last());
        assert(apply_equivalent(a[a.len() - 1], b[b.len() - 1]));
    }
}

/// Re-point the primary flag in place: every location's `is_primary` becomes
/// "is this the chosen key".
fn retarget_primary(locs: &mut IdMap<OrganizationLocation>, primary: u128)
    ensures
        final(locs)@ == set_primary_map(old(locs)@, primary),
{
    let ghost target = set_primary_map(old(locs)@, primary);
    let n = locs.len();
    locs.positions_cover_domain();
    let mut rebuilt: IdMap<OrganizationLocation> = IdMap::new();
    for i in 0..n
        invariant
            *locs == *old(locs),
            n == locs@.dom().len(),
            target == set_primary_map(locs@, primary),
            forall|k: u128|
                #[trigger] rebuilt@.contains_key(k) ==> target.dom().contains(k) && rebuilt@[k]
                    == target[k],
            forall|j: int| 0 <= j < i ==> rebuilt@.contains_key(#[trigger] locs.spec_key_at(j)),
            forall|k: u128|
                locs@.contains_key(k) <==> exists|j: int|
                    0 <= j < locs@.dom().len() && locs.spec_key_at(j) == k,
            forall|j: int|
                0 <= j < locs@.dom().len() ==> locs@.contains_key(#[trigger] locs.spec_key_at(j)),
    {
        let (k, v) = locs.entry_at(i);
        let nv = OrganizationLocation {
            id: v.id,
            name: v.name.clone(),
            address: v.address.clone(),
            is_primary: k == primary,
        };
        let ghost pre_rebuilt = rebuilt@;
        proof {
            assert(locs@.contains_key(k));
            assert(target.dom().contains(k));
            assert(nv == target[k]);
        }
        rebuilt.insert(k, nv);
        proof {
            assert(rebuilt@ == pre_rebuilt.insert(k, nv));
            assert forall|k2: u128| #[trigger] rebuilt@.contains_key(k2)
                implies target.dom().contains(k2) && rebuilt@[k2] == target[k2] by {
                if k2 == k {
                    assert(rebuilt@[k] == nv);
                } else {
                    assert(pre_rebuilt.contains_key(k2));
                    assert(rebuilt@[k2] == pre_rebuilt[k2]);
                }
            }
        }
    }
    proof {
        assert forall|k: u128| target.dom().contains(k) implies rebuilt@.contains_key(k) by {
            assert(locs@.contains_key(k));
            let j = choose|j: int| 0 <= j < locs@.dom().len() && locs.spec_key_at(j) == k;
            assert(rebuilt@.contains_key(locs.spec_key_at(j)));
        }
        assert(rebuilt@ =~= target);
    }
    *locs = rebuilt;
}

} // verus!
