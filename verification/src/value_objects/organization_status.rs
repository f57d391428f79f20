//! Organization status value object.

use vstd::prelude::*;

verus! {

/// Status of an organization as a descriptive value object.
///
/// This is the general-purpose status vocabulary used by read models and
/// metadata; the aggregate's own lifecycle state machine is the stricter
/// one in [`crate::entity::OrganizationStatus`].
#[derive(Debug, Clone, Copy, PartialEq, Eq, Hash, Structural)]
pub enum OrganizationStatus {
    /// Actively operating
    Active,
    /// Temporarily inactive
    Inactive,
    /// In the process of being set up
    Pending,
    /// Merged with another organization
    Merged,
    /// Acquired by another organization
    Acquired,
    /// Dissolved or closed
    Dissolved,
    /// Archived/historical
    Archived,
}

impl OrganizationStatus {
    /// Which transitions this status vocabulary allows.
    pub open spec fn spec_can_transition_to(self, new_status: OrganizationStatus) -> bool {
        match self {
            OrganizationStatus::Pending => {
                new_status == OrganizationStatus::Active
                    || new_status == OrganizationStatus::Dissolved
            },
            OrganizationStatus::Active => {
                new_status == OrganizationStatus::Inactive
                    || new_status == OrganizationStatus::Merged
                    || new_status == OrganizationStatus::Acquired
                    || new_status == OrganizationStatus::Dissolved
            },
            OrganizationStatus::Inactive => {
                new_status == OrganizationStatus::Active
                    || new_status == OrganizationStatus::Dissolved
                    || new_status == OrganizationStatus::Archived
            },
            OrganizationStatus::Merged => new_status == OrganizationStatus::Archived,
            OrganizationStatus::Acquired => new_status == OrganizationStatus::Archived,
            OrganizationStatus::Dissolved => new_status == OrganizationStatus::Archived,
            OrganizationStatus::Archived => false,
        }
    }

    /// Check if the organization is operational.
    pub fn is_operational(&self) -> (r: bool)
        ensures
            r == (*self == OrganizationStatus::Active || *self == OrganizationStatus::Pending),
    {
        matches!(self, Self::Active | Self::Pending)
    }

    /// Check if the organization can have members.
    pub fn can_have_members(&self) -> (r: bool)
        ensures
            r == (*self == OrganizationStatus::Active || *self == OrganizationStatus::Pending
                || *self == OrganizationStatus::Inactive),
    {
        matches!(self, Self::Active | Self::Pending | Self::Inactive)
    }

    /// Check if the organization can be modified.
    pub fn can_be_modified(&self) -> (r: bool)
        ensures
            r == (*self == OrganizationStatus::Active || *self == OrganizationStatus::Pending
                || *self == OrganizationStatus::Inactive),
    {
        matches!(self, Self::Active | Self::Pending | Self::Inactive)
    }

    /// Get the statuses this status may transition to.
    pub fn valid_transitions(&self) -> (r: Vec<OrganizationStatus>)
        ensures
            forall|t: OrganizationStatus| r@.contains(t) == self.spec_can_transition_to(t),
    {
        let r: Vec<OrganizationStatus> = match self {
            Self::Pending => vec![Self::Active, Self::Dissolved],
            Self::Active => vec![Self::Inactive, Self::Merged, Self::Acquired, Self::Dissolved],
            Self::Inactive => vec![Self::Active, Self::Dissolved, Self::Archived],
            Self::Merged | Self::Acquired | Self::Dissolved => vec![Self::Archived],
            Self::Archived => vec![],
        };
        proof {
            assert forall|t: OrganizationStatus| r@.contains(t) == self.spec_can_transition_to(t)
            by {
                if self.spec_can_transition_to(t) {
                    assert(r@.contains(t)) by {
                        if t == OrganizationStatus::Active {
                            assert(exists|i: int| 0 <= i < r@.len() && r@[i] == t);
                        }
                    }
                }
                if r@.contains(t) {
                    let i = choose|i: int| 0 <= i < r@.len() && r@[i] == t;
                    assert(self.spec_can_transition_to(r@[i]));
                }
            }
        }
        r
    }

    /// Check if a transition to another status is valid.
    pub fn can_transition_to(&self, new_status: &OrganizationStatus) -> (r: bool)
        ensures
            r == self.spec_can_transition_to(*new_status),
    {
        match self {
            Self::Pending => {
                matches!(new_status, Self::Active | Self::Dissolved)
            },
            Self::Active => {
                matches!(new_status, Self::Inactive | Self::Merged | Self::Acquired | Self::Dissolved)
            },
            Self::Inactive => {
                matches!(new_status, Self::Active | Self::Dissolved | Self::Archived)
            },
            Self::Merged | Self::Acquired | Self::Dissolved => {
                matches!(new_status, Self::Archived)
            },
            Self::Archived => false,
        }
    }
}

impl Default for OrganizationStatus {
    fn default() -> (r: Self)
        ensures
            r == OrganizationStatus::Pending,
    {
        Self::Pending
    }
}

} // verus!
