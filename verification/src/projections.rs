//! Projections: denormalized read views maintained from the event stream.
//!
//! The read side consumes the same ordered events the write side appends and
//! updates its views incrementally; it is eventually consistent with the
//! write side, and a query may observe stale data until the corresponding
//! event has been applied here. Updates are insert-or-replace with counts
//! derived from the stored views, so applying the same event twice leaves
//! the read model exactly where one application left it
//! ([`lemma_projection_idempotent`]).

use vstd::prelude::*;
use crate::entity::OrganizationStatus;
use crate::events::OrganizationEvent;
use crate::id_map::IdMap;
use crate::value_objects::{OrganizationRole, OrganizationType, RoleV, SizeCategory};

verus! {

/// Abstract value of an [`OrganizationView`].
pub struct OrgViewV {
    pub organization_id: u128,
    pub name: Seq<char>,
    pub org_type: OrganizationType,
    pub status: OrganizationStatus,
    pub parent_id: Option<u128>,
    pub member_count: nat,
    pub size_category: SizeCategory,
}

/// Read view of one organization.
#[derive(Debug)]
pub struct OrganizationView {
    pub organization_id: u128,
    pub name: String,
    pub org_type: OrganizationType,
    pub status: OrganizationStatus,
    pub parent_id: Option<u128>,
    pub member_count: usize,
    pub size_category: SizeCategory,
}

impl View for OrganizationView {
    type V = OrgViewV;

    open spec fn view(&self) -> OrgViewV {
        OrgViewV {
            organization_id: self.organization_id,
            name: self.name@,
            org_type: self.org_type,
            status: self.status,
            parent_id: self.parent_id,
            member_count: self.member_count as nat,
            size_category: self.size_category,
        }
    }
}

impl OrganizationView {
    /// The size category a member count maps to on the read side.
    pub open spec fn spec_size_category(member_count: nat) -> SizeCategory {
        if member_count <= 10 {
            SizeCategory::Small
        } else if member_count <= 50 {
            SizeCategory::Medium
        } else if member_count <= 200 {
            SizeCategory::Large
        } else {
            SizeCategory::Enterprise
        }
    }

    /// Calculate the size category for a member count.
    pub fn calculate_size_category(member_count: usize) -> (r: SizeCategory)
        ensures
            r == Self::spec_size_category(member_count as nat),
    {
        if member_count <= 10 {
            SizeCategory::Small
        } else if member_count <= 50 {
            SizeCategory::Medium
        } else if member_count <= 200 {
            SizeCategory::Large
        } else {
            SizeCategory::Enterprise
        }
    }

    /// Re-derive the size category from the current member count.
    pub fn update_size_category(&mut self)
        ensures
            (final(self)@ == OrgViewV {
                size_category: Self::spec_size_category(old(self)@.member_count),
                ..old(self)@
            }),
    {
        self.size_category = Self::calculate_size_category(self.member_count);
    }

    /// Copy this view.
    pub fn duplicate(&self) -> (r: Self)
        ensures
            r@ == self@,
    {
        OrganizationView {
            organization_id: self.organization_id,
            name: self.name.clone(),
            org_type: self.org_type,
            status: self.status,
            parent_id: self.parent_id,
            member_count: self.member_count,
            size_category: self.size_category,
        }
    }
}

/// Abstract value of a [`MemberView`].
pub struct MemberViewV {
    pub person_id: u128,
    pub person_name: Seq<char>,
    pub role: RoleV,
    pub joined_at: u64,
    pub reports_to_id: Option<u128>,
    pub is_active: bool,
}

/// Read view of one member of an organization.
#[derive(Debug)]
pub struct MemberView {
    pub person_id: u128,
    pub person_name: String,
    pub role: OrganizationRole,
    pub joined_at: u64,
    pub reports_to_id: Option<u128>,
    pub is_active: bool,
}

impl View for MemberView {
    type V = MemberViewV;

    open spec fn view(&self) -> MemberViewV {
        MemberViewV {
            person_id: self.person_id,
            person_name: self.person_name@,
            role: self.role@,
            joined_at: self.joined_at,
            reports_to_id: self.reports_to_id,
            is_active: self.is_active,
        }
    }
}

impl MemberView {
    /// Copy this view.
    pub fn duplicate(&self) -> (r: Self)
        ensures
            r@ == self@,
    {
        MemberView {
            person_id: self.person_id,
            person_name: self.person_name.clone(),
            role: self.role.duplicate(),
            joined_at: self.joined_at,
            reports_to_id: self.reports_to_id,
            is_active: self.is_active,
        }
    }
}

/// Abstract value of the read model: organization views and, per
/// organization, its member views.
pub struct ReadModelV {
    pub organizations: Map<u128, OrgViewV>,
    pub members: Map<u128, Map<u128, MemberViewV>>,
}

/// In-memory store of the read views.
pub struct InMemoryReadModelStore {
    organizations: IdMap<OrganizationView>,
    members: IdMap<IdMap<MemberView>>,
}

impl View for InMemoryReadModelStore {
    type V = ReadModelV;

    closed spec fn view(&self) -> ReadModelV {
        ReadModelV { organizations: self.organizations@, members: self.members@ }
    }
}

/// A vector of keyed member views lists a member map exactly: one entry per
/// key, each carrying that key's view. Together with the length, the entries
/// cover the whole map.
pub open spec fn lists_members(r: Seq<(u128, MemberView)>, m: Map<u128, MemberViewV>) -> bool {
    &&& r.len() == m.dom().len()
    &&& forall|j: int|
        0 <= j < r.len() ==> m.contains_key((#[trigger] r[j]).0) && (r[j].1)@ == m[r[j].0]
    &&& forall|j1: int, j2: int| 0 <= j1 < j2 < r.len() ==> (#[trigger] r[j1]).0 != (#[trigger] r[j2]).0
}

/// A vector of keyed organization views lists an organization map exactly.
pub open spec fn lists_organizations(
    r: Seq<(u128, OrganizationView)>,
    m: Map<u128, OrgViewV>,
) -> bool {
    &&& r.len() == m.dom().len()
    &&& forall|j: int|
        0 <= j < r.len() ==> m.contains_key((#[trigger] r[j]).0) && (r[j].1)@ == m[r[j].0]
    &&& forall|j1: int, j2: int| 0 <= j1 < j2 < r.len() ==> (#[trigger] r[j1]).0 != (#[trigger] r[j2]).0
}

/// Some entry of a keyed listing carries this key.
pub open spec fn has_key_entry(r: Seq<(u128, OrganizationView)>, k: u128) -> bool {
    exists|j: int| 0 <= j < r.len() && (#[trigger] r[j]).0 == k
}

/// An organization view passes the given type and status filters; a missing
/// filter passes everything.
pub open spec fn org_view_matches(
    v: OrgViewV,
    org_type: Option<OrganizationType>,
    status: Option<OrganizationStatus>,
) -> bool {
    &&& (org_type matches Some(t) ==> v.org_type == t)
    &&& (status matches Some(s) ==> v.status == s)
}

/// Membership statistics of one organization, derived from the read views.
#[derive(Debug, Clone, Copy, PartialEq, Eq, Structural)]
pub struct OrganizationStatistics {
    pub organization_id: u128,
    pub total_members: usize,
    pub management_members: usize,
    pub individual_contributors: usize,
}

/// The member views of one organization, or none if it never had any.
pub open spec fn members_of(rm: ReadModelV, org_id: u128) -> Map<u128, MemberViewV> {
    if rm.members.contains_key(org_id) {
        rm.members[org_id]
    } else {
        Map::empty()
    }
}

impl InMemoryReadModelStore {
    /// An empty read model.
    pub fn new() -> (r: Self)
        ensures
            r@.organizations == Map::<u128, OrgViewV>::empty(),
            r@.members == Map::<u128, Map<u128, MemberViewV>>::empty(),
    {
        InMemoryReadModelStore { organizations: IdMap::new(), members: IdMap::new() }
    }

    /// Get an organization view by identifier.
    pub fn get_organization(&self, organization_id: u128) -> (r: Option<&OrganizationView>)
        ensures
            match r {
                Some(view) => self@.organizations.contains_key(organization_id) && view@
                    == self@.organizations[organization_id],
                None => !self@.organizations.contains_key(organization_id),
            },
    {
        self.organizations.get(organization_id)
    }

    /// Insert or replace an organization view.
    pub fn update_organization(&mut self, view: OrganizationView)
        ensures
            (final(self)@ == ReadModelV {
                organizations: old(self)@.organizations.insert(view.organization_id, view@),
                ..old(self)@
            }),
    {
        let id = view.organization_id;
        self.organizations.insert(id, view);
    }

    /// Get the member views of an organization, keyed by person: exactly the
    /// stored views, one per member.
    pub fn get_organization_members(&self, organization_id: u128) -> (r: Vec<(u128, MemberView)>)
        ensures
            lists_members(r@, members_of(self@, organization_id)),
    {
        let ghost mo = members_of(self@, organization_id);
        let mut out: Vec<(u128, MemberView)> = Vec::new();
        match self.members.get(organization_id) {
            None => {
                proof {
                    broadcast use vstd::set::axiom_set_empty_len;
                    assert(mo =~= Map::<u128, MemberViewV>::empty());
                    assert(mo.dom() =~= Set::<u128>::empty());
                }
                out
            },
            Some(members) => {
                let n = members.len();
                members.positions_cover_domain();
                for i in 0..n
                    invariant
                        n == members@.dom().len(),
                        members@ == members_of(self@, organization_id),
                        out@.len() == i,
                        forall|j: int|
                            0 <= j < i ==> (#[trigger] out@[j]).0 == members.spec_key_at(j),
                        forall|j: int|
                            0 <= j < i ==> members@.contains_key((#[trigger] out@[j]).0)
                                && (out@[j].1)@ == members@[out@[j].0],
                        forall|j1: int, j2: int|
                            0 <= j1 < j2 < n ==> members.spec_key_at(j1) != members.spec_key_at(
                                j2,
                            ),
                {
                    let (k, member) = members.entry_at(i);
                    out.push((k, member.duplicate()));
                }
                out
            },
        }
    }

    /// List every organization view, keyed by identifier.
    pub fn get_all_organizations(&self) -> (r: Vec<(u128, OrganizationView)>)
        ensures
            lists_organizations(r@, self@.organizations),
    {
        let mut out: Vec<(u128, OrganizationView)> = Vec::new();
        let n = self.organizations.len();
        self.organizations.positions_cover_domain();
        for i in 0..n
            invariant
                n == self@.organizations.dom().len(),
                out@.len() == i,
                forall|j: int|
                    0 <= j < i ==> (#[trigger] out@[j]).0 == self.organizations.spec_key_at(j),
                forall|j: int|
                    0 <= j < i ==> self@.organizations.contains_key((#[trigger] out@[j]).0)
                        && (out@[j].1)@ == self@.organizations[out@[j].0],
                forall|j1: int, j2: int|
                    0 <= j1 < j2 < n ==> self.organizations.spec_key_at(j1)
                        != self.organizations.spec_key_at(j2),
        {
            let (k, view) = self.organizations.entry_at(i);
            out.push((k, view.duplicate()));
        }
        out
    }

    /// List the organizations whose view satisfies a type filter, a status
    /// filter, or both; a missing filter passes everything. Exactly the
    /// matching organizations are returned, keyed by identifier.
    pub fn organizations_matching(
        &self,
        org_type: Option<OrganizationType>,
        status: Option<OrganizationStatus>,
    ) -> (r: Vec<(u128, OrganizationView)>)
        ensures
            forall|j: int|
                0 <= j < r@.len() ==> self@.organizations.contains_key((#[trigger] r@[j]).0)
                    && (r@[j].1)@ == self@.organizations[r@[j].0] && org_view_matches(
                    (r@[j].1)@,
                    org_type,
                    status,
                ),
            forall|j1: int, j2: int| 0 <= j1 < j2 < r@.len() ==> (#[trigger] r@[j1]).0 != (#[trigger] r@[j2]).0,
            forall|k: u128|
                #[trigger] self@.organizations.contains_key(k) && org_view_matches(
                    self@.organizations[k],
                    org_type,
                    status,
                ) ==> has_key_entry(r@, k),
    {
        let mut out: Vec<(u128, OrganizationView)> = Vec::new();
        let ghost mut sources: Seq<int> = Seq::empty();
        let n = self.organizations.len();
        self.organizations.positions_cover_domain();
        for i in 0..n
            invariant
                n == self@.organizations.dom().len(),
                forall|j: int|
                    0 <= j < out@.len() ==> self@.organizations.contains_key(
                        (#[trigger] out@[j]).0,
                    ) && (out@[j].1)@ == self@.organizations[out@[j].0] && org_view_matches(
                        (out@[j].1)@,
                        org_type,
                        status,
                    ),
                sources.len() == out@.len(),
                forall|j: int|
                    0 <= j < out@.len() ==> 0 <= #[trigger] sources[j] < i && (out@[j]).0
                        == self.organizations.spec_key_at(sources[j]),
                forall|p: int|
                    #![trigger self.organizations.spec_key_at(p)]
                    0 <= p < i && org_view_matches(
                        self@.organizations[self.organizations.spec_key_at(p)],
                        org_type,
                        status,
                    ) ==> has_key_entry(out@, self.organizations.spec_key_at(p)),
                forall|j1: int, j2: int|
                    0 <= j1 < j2 < out@.len() ==> (#[trigger] out@[j1]).0 != (#[trigger] out@[j2]).0,
                forall|k: u128|
                    self@.organizations.contains_key(k) <==> exists|p: int|
                        0 <= p < n && self.organizations.spec_key_at(p) == k,
                forall|p: int|
                    0 <= p < n ==> self@.organizations.contains_key(
                        #[trigger] self.organizations.spec_key_at(p),
                    ),
                forall|p1: int, p2: int|
                    0 <= p1 < p2 < n ==> self.organizations.spec_key_at(p1)
                        != self.organizations.spec_key_at(p2),
        {
            let (k, view) = self.organizations.entry_at(i);
            let type_ok = match org_type {
                Some(t) => view.org_type == t,
                None => true,
            };
            let status_ok = match status {
                Some(s) => view.status == s,
                None => true,
            };
            let ghost pre = out@;
            if type_ok && status_ok {
                out.push((k, view.duplicate()));
                proof {
                    sources = sources.push(i as int);
                }
            }
            proof {
                assert forall|p: int|
                    #![trigger self.organizations.spec_key_at(p)]
                    0 <= p < i + 1 && org_view_matches(
                        self@.organizations[self.organizations.spec_key_at(p)],
                        org_type,
                        status,
                    ) implies has_key_entry(out@, self.organizations.spec_key_at(p)) by {
                    if p < i {
                        assert(has_key_entry(pre, self.organizations.spec_key_at(p)));
                        let w = choose|w: int|
                            0 <= w < pre.len() && (#[trigger] pre[w]).0
                                == self.organizations.spec_key_at(p);
                        assert((out@[w]).0 == self.organizations.spec_key_at(p));
                    } else {
                        assert((out@[out@.len() - 1]).0 == self.organizations.spec_key_at(p));
                    }
                }
                assert forall|j1: int, j2: int| 0 <= j1 < j2 < out@.len()
                    implies (#[trigger] out@[j1]).0 != (#[trigger] out@[j2]).0 by {
                    assert(out@[j1].0 == self.organizations.spec_key_at(sources[j1]));
                    assert(out@[j2].0 == self.organizations.spec_key_at(sources[j2]));
                }
            }
        }
        proof {
            assert forall|k: u128|
                #[trigger] self@.organizations.contains_key(k) && org_view_matches(
                    self@.organizations[k],
                    org_type,
                    status,
                ) implies has_key_entry(out@, k) by {
                let p = choose|p: int| 0 <= p < n && self.organizations.spec_key_at(p) == k;
                assert(has_key_entry(out@, self.organizations.spec_key_at(p)));
            }
        }
        out
    }

    /// Compute the membership statistics of an organization: the member
    /// count and how it splits into management and individual contributors.
    pub fn organization_statistics(&self, organization_id: u128) -> (r: OrganizationStatistics)
        ensures
            r.organization_id == organization_id,
            r.total_members == members_of(self@, organization_id).dom().len(),
            r.management_members == members_of(self@, organization_id).dom().filter(
                |k: u128| members_of(self@, organization_id)[k].role.level.spec_is_management(),
            ).len(),
            r.individual_contributors == members_of(self@, organization_id).dom().filter(
                |k: u128| !members_of(self@, organization_id)[k].role.level.spec_is_management(),
            ).len(),
    {
        let ghost mo = members_of(self@, organization_id);
        let ghost mgmt_set = mo.dom().filter(
            |k: u128| mo[k].role.level.spec_is_management(),
        );
        let ghost ic_set = mo.dom().filter(
            |k: u128| !mo[k].role.level.spec_is_management(),
        );
        let mut management_members: usize = 0;
        let mut individual_contributors: usize = 0;
        let ghost mut mgmt_seen: Set<u128> = Set::empty();
        let ghost mut ic_seen: Set<u128> = Set::empty();
        let total_members = match self.members.get(organization_id) {
            None => {
                proof {
                    broadcast use vstd::set::axiom_set_empty_len;
                    assert(mo =~= Map::<u128, MemberViewV>::empty());
                    assert(mo.dom() =~= Set::<u128>::empty());
                    assert(mgmt_set =~= Set::<u128>::empty());
                    assert(ic_set =~= Set::<u128>::empty());
                }
                0
            },
            Some(members) => {
                let n = members.len();
                members.positions_cover_domain();
                for i in 0..n
                    invariant
                        n == members@.dom().len(),
                        members@ == mo,
                        mgmt_seen.finite(),
                        ic_seen.finite(),
                        management_members == mgmt_seen.len(),
                        individual_contributors == ic_seen.len(),
                        management_members + individual_contributors <= i,
                        forall|k: u128|
                            #[trigger] mgmt_seen.contains(k) ==> mo.contains_key(k)
                                && mo[k].role.level.spec_is_management(),
                        forall|k: u128|
                            #[trigger] ic_seen.contains(k) ==> mo.contains_key(k)
                                && !mo[k].role.level.spec_is_management(),
                        forall|p: int|
                            #![trigger members.spec_key_at(p)]
                            0 <= p < i ==> if mo[members.spec_key_at(p)].role.level.spec_is_management() {
                                mgmt_seen.contains(members.spec_key_at(p))
                            } else {
                                ic_seen.contains(members.spec_key_at(p))
                            },
                        forall|p: int|
                            #![trigger members.spec_key_at(p)]
                            i <= p < n ==> !mgmt_seen.contains(members.spec_key_at(p))
                                && !ic_seen.contains(members.spec_key_at(p)),
                        forall|k: u128|
                            mo.contains_key(k) <==> exists|p: int|
                                0 <= p < n && members.spec_key_at(p) == k,
                        forall|p: int|
                            0 <= p < n ==> mo.contains_key(#[trigger] members.spec_key_at(p)),
                        forall|p1: int, p2: int|
                            0 <= p1 < p2 < n ==> members.spec_key_at(p1) != members.spec_key_at(
                                p2,
                            ),
                {
                    let (k, member) = members.entry_at(i);
                    proof {
                        broadcast use vstd::set::axiom_set_insert_len;
                        assert(!mgmt_seen.contains(k) && !ic_seen.contains(k));
                    }
                    if member.role.level.is_management() {
                        management_members = management_members + 1;
                        proof {
                            mgmt_seen = mgmt_seen.insert(k);
                        }
                    } else {
                        individual_contributors = individual_contributors + 1;
                        proof {
                            ic_seen = ic_seen.insert(k);
                        }
                    }
                }
                proof {
                    assert(mgmt_seen =~= mgmt_set) by {
                        assert forall|k: u128| mgmt_set.contains(k)
                            implies mgmt_seen.contains(k) by {
                            let p = choose|p: int|
                                0 <= p < n && members.spec_key_at(p) == k;
                            assert(mo[members.spec_key_at(p)].role.level.spec_is_management());
                        }
                    }
                    assert(ic_seen =~= ic_set) by {
                        assert forall|k: u128| ic_set.contains(k) implies ic_seen.contains(k) by {
                            let p = choose|p: int|
                                0 <= p < n && members.spec_key_at(p) == k;
                            assert(!mo[members.spec_key_at(p)].role.level.spec_is_management());
                        }
                    }
                }
                n
            },
        };
        OrganizationStatistics {
            organization_id,
            total_members,
            management_members,
            individual_contributors,
        }
    }

    /// Insert or replace a member view within an organization.
    fn upsert_member(&mut self, organization_id: u128, member: MemberView)
        ensures
            (final(self)@ == ReadModelV {
                members: old(self)@.members.insert(
                    organization_id,
                    members_of(old(self)@, organization_id).insert(member.person_id, member@),
                ),
                ..old(self)@
            }),
    {
        let mut org_members = match self.members.remove(organization_id) {
            Some(m) => m,
            None => IdMap::new(),
        };
        org_members.insert(member.person_id, member);
        self.members.insert(organization_id, org_members);
        proof {
            assert(self.members@ =~= old(self)@.members.insert(
                organization_id,
                members_of(old(self)@, organization_id).insert(member.person_id, member@),
            ));
        }
    }

    /// Remove a member view from an organization.
    fn remove_member(&mut self, organization_id: u128, person_id: u128)
        ensures
            (final(self)@ == ReadModelV {
                members: if old(self)@.members.contains_key(organization_id) {
                    old(self)@.members.insert(
                        organization_id,
                        old(self)@.members[organization_id].remove(person_id),
                    )
                } else {
                    old(self)@.members
                },
                ..old(self)@
            }),
    {
        match self.members.remove(organization_id) {
            Some(mut org_members) => {
                let _ = org_members.remove(person_id);
                self.members.insert(organization_id, org_members);
                proof {
                    assert(self.members@ =~= old(self)@.members.insert(
                        organization_id,
                        old(self)@.members[organization_id].remove(person_id),
                    ));
                }
            },
            None => {
                proof {
                    assert(self.members@ =~= old(self)@.members);
                }
            },
        }
    }
}

/// The read-model state after one event is projected into it.
pub open spec fn spec_project(rm: ReadModelV, e: OrganizationEvent) -> ReadModelV {
    match e {
        OrganizationEvent::Created(ev) => ReadModelV {
            organizations: rm.organizations.insert(
                ev.organization_id,
                OrgViewV {
                    organization_id: ev.organization_id,
                    name: ev.name@,
                    org_type: ev.org_type,
                    status: OrganizationStatus::Active,
                    parent_id: ev.parent_id,
                    member_count: members_of(rm, ev.organization_id).dom().len(),
                    size_category: OrganizationView::spec_size_category(
                        members_of(rm, ev.organization_id).dom().len(),
                    ),
                },
            ),
            ..rm
        },
        OrganizationEvent::StatusChanged(ev) => if rm.organizations.contains_key(
            ev.organization_id,
        ) {
            ReadModelV {
                organizations: rm.organizations.insert(
                    ev.organization_id,
                    OrgViewV {
                        status: ev.new_status,
                        ..rm.organizations[ev.organization_id]
                    },
                ),
                ..rm
            }
        } else {
            rm
        },
        OrganizationEvent::MemberAdded(ev) => {
            let new_members = members_of(rm, ev.organization_id).insert(
                ev.member.person_id,
                MemberViewV {
                    person_id: ev.member.person_id,
                    person_name: Seq::empty(),
                    role: ev.member.role@,
                    joined_at: ev.member.joined_at,
                    reports_to_id: ev.member.reports_to,
                    is_active: true,
                },
            );
            ReadModelV {
                members: rm.members.insert(ev.organization_id, new_members),
                organizations: if rm.organizations.contains_key(ev.organization_id) {
                    rm.organizations.insert(
                        ev.organization_id,
                        OrgViewV {
                            member_count: new_members.dom().len(),
                            size_category: OrganizationView::spec_size_category(
                                new_members.dom().len(),
                            ),
                            ..rm.organizations[ev.organization_id]
                        },
                    )
                } else {
                    rm.organizations
                },
            }
        },
        OrganizationEvent::MemberRemoved(ev) => {
            let new_members = members_of(rm, ev.organization_id).remove(ev.person_id);
            ReadModelV {
                members: if rm.members.contains_key(ev.organization_id) {
                    rm.members.insert(ev.organization_id, new_members)
                } else {
                    rm.members
                },
                organizations: if rm.organizations.contains_key(ev.organization_id) {
                    rm.organizations.insert(
                        ev.organization_id,
                        OrgViewV {
                            member_count: new_members.dom().len(),
                            size_category: OrganizationView::spec_size_category(
                                new_members.dom().len(),
                            ),
                            ..rm.organizations[ev.organization_id]
                        },
                    )
                } else {
                    rm.organizations
                },
            }
        },
        OrganizationEvent::Dissolved(ev) => if rm.organizations.contains_key(ev.organization_id) {
            ReadModelV {
                organizations: rm.organizations.insert(
                    ev.organization_id,
                    OrgViewV {
                        status: OrganizationStatus::Dissolved,
                        ..rm.organizations[ev.organization_id]
                    },
                ),
                ..rm
            }
        } else {
            rm
        },
        OrganizationEvent::Merged(ev) => if rm.organizations.contains_key(
            ev.source_organization_id,
        ) {
            ReadModelV {
                organizations: rm.organizations.insert(
                    ev.source_organization_id,
                    OrgViewV {
                        status: OrganizationStatus::Merged,
                        ..rm.organizations[ev.source_organization_id]
                    },
                ),
                ..rm
            }
        } else {
            rm
        },
        _ => rm,
    }
}

/// Projection updates are idempotent under duplicate delivery: projecting
/// the same event a second time leaves the read model exactly where the
/// first projection left it, as the transport only guarantees at-least-once
/// delivery.
pub proof fn lemma_projection_idempotent(rm: ReadModelV, e: OrganizationEvent)
    ensures
        spec_project(spec_project(rm, e), e) == spec_project(rm, e),
{
    let once = spec_project(rm, e);
    let twice = spec_project(once, e);
    match e {
        OrganizationEvent::Created(ev) => {
            assert(twice.organizations =~= once.organizations);
        },
        OrganizationEvent::StatusChanged(ev) => {
            assert(twice.organizations =~= once.organizations);
        },
        OrganizationEvent::MemberAdded(ev) => {
            assert(members_of(once, ev.organization_id) =~= members_of(
                rm,
                ev.organization_id,
            ).insert(
                ev.member.person_id,
                MemberViewV {
                    person_id: ev.member.person_id,
                    person_name: Seq::empty(),
                    role: ev.member.role@,
                    joined_at: ev.member.joined_at,
                    reports_to_id: ev.member.reports_to,
                    is_active: true,
                },
            ));
            assert(members_of(twice, ev.organization_id) =~= members_of(
                once,
                ev.organization_id,
            ));
            assert(twice.members =~= once.members);
            assert(twice.organizations =~= once.organizations);
        },
        OrganizationEvent::MemberRemoved(ev) => {
            assert(members_of(twice, ev.organization_id) =~= members_of(
                once,
                ev.organization_id,
            ));
            assert(twice.members =~= once.members);
            assert(twice.organizations =~= once.organizations);
        },
        OrganizationEvent::Dissolved(ev) => {
            assert(twice.organizations =~= once.organizations);
        },
        OrganizationEvent::Merged(ev) => {
            assert(twice.organizations =~= once.organizations);
        },
        _ => {},
    }
    assert(twice =~= once);
}

/// Projection updater: consumes the ordered event stream and keeps the read
/// views in step, one event at a time.
pub struct ProjectionUpdater {
    read_store: InMemoryReadModelStore,
}

impl View for ProjectionUpdater {
    type V = ReadModelV;

    closed spec fn view(&self) -> ReadModelV {
        self.read_store@
    }
}

impl ProjectionUpdater {
    /// An updater over the given read store.
    pub fn new(read_store: InMemoryReadModelStore) -> (r: Self)
        ensures
            r@ == read_store@,
    {
        ProjectionUpdater { read_store }
    }

    /// Hand the read store back out, for querying.
    pub fn into_read_store(self) -> (r: InMemoryReadModelStore)
        ensures
            r@ == self@,
    {
        self.read_store
    }

    /// Borrow the read store for querying.
    pub fn read_store(&self) -> (r: &InMemoryReadModelStore)
        ensures
            r@ == self@,
    {
        &self.read_store
    }

    /// Project one event into the read model. Member counts and size
    /// categories are re-derived from the stored member views, so the update
    /// is idempotent under duplicate delivery.
    pub fn handle_event(&mut self, event: &OrganizationEvent) -> (r: Result<
        (),
        crate::errors::OrganizationError,
    >)
        ensures
            final(self)@ == spec_project(old(self)@, *event),
            r is Ok,
    {
        match event {
            OrganizationEvent::Created(ev) => {
                let member_count = match self.read_store.members.get(ev.organization_id) {
                    Some(m) => m.len(),
                    None => 0,
                };
                let view = OrganizationView {
                    organization_id: ev.organization_id,
                    name: ev.name.clone(),
                    org_type: ev.org_type,
                    status: OrganizationStatus::Active,
                    parent_id: ev.parent_id,
                    member_count,
                    size_category: OrganizationView::calculate_size_category(member_count),
                };
                self.read_store.update_organization(view);
            },
            OrganizationEvent::StatusChanged(ev) => {
                if let Some(mut view) = self.read_store.organizations.remove(ev.organization_id) {
                    view.status = ev.new_status;
                    self.read_store.organizations.insert(ev.organization_id, view);
                    proof {
                        assert(self.read_store.organizations@
                            =~= old(self)@.organizations.insert(
                            ev.organization_id,
                            OrgViewV {
                                status: ev.new_status,
                                ..old(self)@.organizations[ev.organization_id]
                            },
                        ));
                    }
                } else {
                    proof {
                        assert(self.read_store.organizations@ =~= old(self)@.organizations);
                    }
                }
            },
            OrganizationEvent::MemberAdded(ev) => {
                let member_view = MemberView {
                    person_id: ev.member.person_id,
                    person_name: String::new(),
                    role: ev.member.role.duplicate(),
                    joined_at: ev.member.joined_at,
                    reports_to_id: ev.member.reports_to,
                    is_active: true,
                };
                self.read_store.upsert_member(ev.organization_id, member_view);
                self.refresh_member_count(ev.organization_id);
            },
            OrganizationEvent::MemberRemoved(ev) => {
                self.read_store.remove_member(ev.organization_id, ev.person_id);
                self.refresh_member_count(ev.organization_id);
                proof {
                    if !old(self)@.members.contains_key(ev.organization_id) {
                        assert(members_of(old(self)@, ev.organization_id).remove(ev.person_id)
                            =~= Map::<u128, MemberViewV>::empty());
                    }
                }
            },
            OrganizationEvent::Dissolved(ev) => {
                if let Some(mut view) = self.read_store.organizations.remove(ev.organization_id) {
                    view.status = OrganizationStatus::Dissolved;
                    self.read_store.organizations.insert(ev.organization_id, view);
                    proof {
                        assert(self.read_store.organizations@
                            =~= old(self)@.organizations.insert(
                            ev.organization_id,
                            OrgViewV {
                                status: OrganizationStatus::Dissolved,
                                ..old(self)@.organizations[ev.organization_id]
                            },
                        ));
                    }
                } else {
                    proof {
                        assert(self.read_store.organizations@ =~= old(self)@.organizations);
                    }
                }
            },
            OrganizationEvent::Merged(ev) => {
                if let Some(mut view) = self.read_store.organizations.remove(
                    ev.source_organization_id,
                ) {
                    view.status = OrganizationStatus::Merged;
                    self.read_store.organizations.insert(ev.source_organization_id, view);
                    proof {
                        assert(self.read_store.organizations@
                            =~= old(self)@.organizations.insert(
                            ev.source_organization_id,
                            OrgViewV {
                                status: OrganizationStatus::Merged,
                                ..old(self)@.organizations[ev.source_organization_id]
                            },
                        ));
                    }
                } else {
                    proof {
                        assert(self.read_store.organizations@ =~= old(self)@.organizations);
                    }
                }
            },
            _ => {},
        }
        Ok(())
    }

    /// Re-derive an organization view's member count and size category from
    /// its stored member views.
    fn refresh_member_count(&mut self, organization_id: u128)
        ensures
            (final(self)@ == ReadModelV {
                organizations: if old(self)@.organizations.contains_key(organization_id) {
                    old(self)@.organizations.insert(
                        organization_id,
                        OrgViewV {
                            member_count: members_of(old(self)@, organization_id).dom().len(),
                            size_category: OrganizationView::spec_size_category(
                                members_of(old(self)@, organization_id).dom().len(),
                            ),
                            ..old(self)@.organizations[organization_id]
                        },
                    )
                } else {
                    old(self)@.organizations
                },
                ..old(self)@
            }),
    {
        let member_count = match self.read_store.members.get(organization_id) {
            Some(m) => m.len(),
            None => 0,
        };
        if let Some(mut view) = self.read_store.organizations.remove(organization_id) {
            view.member_count = member_count;
            view.size_category = OrganizationView::calculate_size_category(member_count);
            self.read_store.organizations.insert(organization_id, view);
            proof {
                assert(self.read_store.organizations@ =~= old(self)@.organizations.insert(
                    organization_id,
                    OrgViewV {
                        member_count: members_of(old(self)@, organization_id).dom().len(),
                        size_category: OrganizationView::spec_size_category(
                            members_of(old(self)@, organization_id).dom().len(),
                        ),
                        ..old(self)@.organizations[organization_id]
                    },
                ));
            }
        } else {
            proof {
                assert(self.read_store.organizations@ =~= old(self)@.organizations);
            }
        }
    }
}

} // verus!
