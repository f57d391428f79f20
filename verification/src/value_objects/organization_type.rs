//! Organization type value object.

use vstd::prelude::*;

verus! {

/// Types of organizations supported by the system.
#[derive(Debug, Clone, Copy, PartialEq, Eq, Hash, Structural)]
pub enum OrganizationType {
    /// Top-level company or corporation
    Company,
    /// Major division within a company
    Division,
    /// Department within a division
    Department,
    /// Team within a department
    Team,
    /// Project-based organization
    Project,
    /// External partner organization
    Partner,
    /// Customer organization
    Customer,
    /// Vendor/supplier organization
    Vendor,
    /// Government organization
    Government,
    /// Non-profit organization
    NonProfit,
    /// Educational institution
    Educational,
    /// Healthcare organization
    Healthcare,
    /// Custom organization type
    Custom,
}

impl OrganizationType {
    /// The internal organization types, which form the in-house hierarchy.
    pub open spec fn spec_is_internal(self) -> bool {
        self == OrganizationType::Company || self == OrganizationType::Division
            || self == OrganizationType::Department || self == OrganizationType::Team
            || self == OrganizationType::Project
    }

    /// The external organization types.
    pub open spec fn spec_is_external(self) -> bool {
        self == OrganizationType::Partner || self == OrganizationType::Customer
            || self == OrganizationType::Vendor || self == OrganizationType::Government
            || self == OrganizationType::NonProfit || self == OrganizationType::Educational
            || self == OrganizationType::Healthcare
    }

    /// Hierarchy depth of each internal type; lower numbers sit higher.
    /// External types carry no hierarchy and map to 0.
    pub open spec fn spec_hierarchical_level(self) -> u8 {
        match self {
            OrganizationType::Company => 1,
            OrganizationType::Division => 2,
            OrganizationType::Department => 3,
            OrganizationType::Team => 4,
            OrganizationType::Project => 4,
            _ => 0,
        }
    }

    /// Check if this is an internal organization type.
    pub fn is_internal(&self) -> (r: bool)
        ensures
            r == self.spec_is_internal(),
    {
        matches!(
            self,
            Self::Company | Self::Division | Self::Department | Self::Team | Self::Project
        )
    }

    /// Check if this is an external organization type.
    pub fn is_external(&self) -> (r: bool)
        ensures
            r == self.spec_is_external(),
    {
        matches!(
            self,
            Self::Partner | Self::Customer | Self::Vendor | Self::Government
                | Self::NonProfit | Self::Educational | Self::Healthcare
        )
    }

    /// Get the hierarchical level of this organization type.
    /// Lower numbers indicate higher levels in the hierarchy.
    pub fn hierarchical_level(&self) -> (r: u8)
        ensures
            r == self.spec_hierarchical_level(),
    {
        match self {
            Self::Company => 1,
            Self::Division => 2,
            Self::Department => 3,
            Self::Team => 4,
            Self::Project => 4,
            _ => 0,
        }
    }

    /// Check if this type can be a parent of another type: both must be
    /// internal, and the parent must sit strictly higher in the hierarchy.
    pub fn can_parent(&self, child: &OrganizationType) -> (r: bool)
        ensures
            r == (self.spec_is_internal() && child.spec_is_internal()
                && self.spec_hierarchical_level() < child.spec_hierarchical_level()),
    {
        if !self.is_internal() || !child.is_internal() {
            return false;
        }
        self.hierarchical_level() < child.hierarchical_level()
    }
}

impl Default for OrganizationType {
    fn default() -> (r: Self)
        ensures
            r == OrganizationType::Company,
    {
        Self::Company
    }
}

} // verus!
