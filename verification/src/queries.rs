//! Query types and the query handler over the read model.
//!
//! Queries are served from the projections, never from the write-side
//! aggregate, and may lag the write side until the projection updater has
//! applied the latest events.

use vstd::prelude::*;
use crate::entity::OrganizationStatus;
use crate::projections::{
    has_key_entry, org_view_matches, InMemoryReadModelStore, lists_members, members_of,
    MemberView, OrganizationStatistics, OrganizationView,
};
use crate::value_objects::OrganizationType;

verus! {

/// Get an organization view by identifier.
#[derive(Debug, Clone, Copy, PartialEq, Eq, Structural)]
pub struct GetOrganizationById {
    /// The organization ID to look up
    pub organization_id: u128,
}

/// Get the members of an organization.
#[derive(Debug, Clone, Copy, PartialEq, Eq, Structural)]
pub struct GetOrganizationMembers {
    /// The organization ID
    pub organization_id: u128,
}

/// Get organizations by type.
#[derive(Debug, Clone, Copy, PartialEq, Eq, Structural)]
pub struct GetOrganizationsByType {
    /// The organization type to filter by
    pub org_type: OrganizationType,
}

/// Get organizations by status.
#[derive(Debug, Clone, Copy, PartialEq, Eq, Structural)]
pub struct GetOrganizationsByStatus {
    /// The status to filter by
    pub status: OrganizationStatus,
}

/// Search organizations by type and status filters; a missing filter passes
/// everything.
#[derive(Debug, Clone, Copy, PartialEq, Eq, Structural)]
pub struct SearchOrganizations {
    /// Filter by type (optional)
    pub org_type_filter: Option<OrganizationType>,
    /// Filter by status (optional)
    pub status_filter: Option<OrganizationStatus>,
}

/// Get the membership statistics of an organization.
#[derive(Debug, Clone, Copy, PartialEq, Eq, Structural)]
pub struct GetOrganizationStatistics {
    /// The organization ID
    pub organization_id: u128,
}

/// Handler for organization queries, answering from the read model.
pub struct OrganizationQueryHandler {
    read_store: InMemoryReadModelStore,
}

impl View for OrganizationQueryHandler {
    type V = <InMemoryReadModelStore as View>::V;

    closed spec fn view(&self) -> <InMemoryReadModelStore as View>::V {
        self.read_store@
    }
}

impl OrganizationQueryHandler {
    /// A handler over the given read store.
    pub fn new(read_store: InMemoryReadModelStore) -> (r: Self)
        ensures
            r@ == read_store@,
    {
        OrganizationQueryHandler { read_store }
    }

    /// Get an organization view by identifier.
    pub fn get_organization_by_id(&self, query: &GetOrganizationById) -> (r: Option<
        OrganizationView,
    >)
        ensures
            match r {
                Some(view) => self@.organizations.contains_key(query.organization_id) && view@
                    == self@.organizations[query.organization_id],
                None => !self@.organizations.contains_key(query.organization_id),
            },
    {
        match self.read_store.get_organization(query.organization_id) {
            Some(view) => Some(view.duplicate()),
            None => None,
        }
    }

    /// Get the members of an organization, keyed by person.
    pub fn get_organization_members(&self, query: &GetOrganizationMembers) -> (r: Vec<
        (u128, MemberView),
    >)
        ensures
            lists_members(r@, members_of(self@, query.organization_id)),
    {
        self.read_store.get_organization_members(query.organization_id)
    }

    /// Get the membership statistics of an organization: the member count
    /// and its exact split into management and individual contributors.
    pub fn get_organization_statistics(&self, query: &GetOrganizationStatistics) -> (r:
        OrganizationStatistics)
        ensures
            r.organization_id == query.organization_id,
            r.total_members == members_of(self@, query.organization_id).dom().len(),
            r.management_members == members_of(self@, query.organization_id).dom().filter(
                |k: u128|
                    members_of(self@, query.organization_id)[k].role.level.spec_is_management(),
            ).len(),
            r.individual_contributors == members_of(self@, query.organization_id).dom().filter(
                |k: u128|
                    !members_of(self@, query.organization_id)[k].role.level.spec_is_management(),
            ).len(),
    {
        self.read_store.organization_statistics(query.organization_id)
    }

    /// Get exactly the organizations of a type, keyed by identifier.
    pub fn get_organizations_by_type(&self, query: &GetOrganizationsByType) -> (r: Vec<
        (u128, OrganizationView),
    >)
        ensures
            forall|j: int|
                0 <= j < r@.len() ==> self@.organizations.contains_key((#[trigger] r@[j]).0)
                    && (r@[j].1)@ == self@.organizations[r@[j].0] && (r@[j].1)@.org_type
                    == query.org_type,
            forall|j1: int, j2: int| 0 <= j1 < j2 < r@.len() ==> (#[trigger] r@[j1]).0 != (#[trigger] r@[j2]).0,
            forall|k: u128|
                #[trigger] self@.organizations.contains_key(k)
                    && self@.organizations[k].org_type == query.org_type ==> has_key_entry(r@, k),
    {
        self.read_store.organizations_matching(Some(query.org_type), None)
    }

    /// Get exactly the organizations in a status, keyed by identifier.
    pub fn get_organizations_by_status(&self, query: &GetOrganizationsByStatus) -> (r: Vec<
        (u128, OrganizationView),
    >)
        ensures
            forall|j: int|
                0 <= j < r@.len() ==> self@.organizations.contains_key((#[trigger] r@[j]).0)
                    && (r@[j].1)@ == self@.organizations[r@[j].0] && (r@[j].1)@.status
                    == query.status,
            forall|j1: int, j2: int| 0 <= j1 < j2 < r@.len() ==> (#[trigger] r@[j1]).0 != (#[trigger] r@[j2]).0,
            forall|k: u128|
                #[trigger] self@.organizations.contains_key(k) && self@.organizations[k].status
                    == query.status ==> has_key_entry(r@, k),
    {
        self.read_store.organizations_matching(None, Some(query.status))
    }

    /// Get exactly the organizations passing the search filters, keyed by
    /// identifier.
    pub fn search_organizations(&self, query: &SearchOrganizations) -> (r: Vec<
        (u128, OrganizationView),
    >)
        ensures
            forall|j: int|
                0 <= j < r@.len() ==> self@.organizations.contains_key((#[trigger] r@[j]).0)
                    && (r@[j].1)@ == self@.organizations[r@[j].0] && org_view_matches(
                    (r@[j].1)@,
                    query.org_type_filter,
                    query.status_filter,
                ),
            forall|j1: int, j2: int| 0 <= j1 < j2 < r@.len() ==> (#[trigger] r@[j1]).0 != (#[trigger] r@[j2]).0,
            forall|k: u128|
                #[trigger] self@.organizations.contains_key(k) && org_view_matches(
                    self@.organizations[k],
                    query.org_type_filter,
                    query.status_filter,
                ) ==> has_key_entry(r@, k),
    {
        self.read_store.organizations_matching(query.org_type_filter, query.status_filter)
    }
}

} // verus!
