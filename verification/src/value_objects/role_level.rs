//! Role level value object.

use vstd::prelude::*;

verus! {

/// Role levels for organizational hierarchy.
#[derive(Debug, Clone, Copy, PartialEq, Eq, PartialOrd, Ord, Hash, Structural)]
pub enum RoleLevel {
    /// C-level executives (CEO, CTO, CFO, etc.)
    Executive,
    /// Vice Presidents and Senior Vice Presidents
    VicePresident,
    /// Directors overseeing multiple teams or departments
    Director,
    /// Managers responsible for teams
    Manager,
    /// Team leads with technical leadership responsibilities
    Lead,
    /// Senior individual contributors
    Senior,
    /// Mid-level individual contributors
    Mid,
    /// Junior individual contributors
    Junior,
    /// Entry-level employees
    Entry,
    /// Interns and trainees
    Intern,
}

impl RoleLevel {
    /// Numeric rank of each level; lower means higher rank.
    pub open spec fn spec_numeric_level(self) -> u8 {
        match self {
            RoleLevel::Executive => 1,
            RoleLevel::VicePresident => 2,
            RoleLevel::Director => 3,
            RoleLevel::Manager => 4,
            RoleLevel::Lead => 5,
            RoleLevel::Senior => 6,
            RoleLevel::Mid => 7,
            RoleLevel::Junior => 8,
            RoleLevel::Entry => 9,
            RoleLevel::Intern => 10,
        }
    }

    /// The management levels.
    pub open spec fn spec_is_management(self) -> bool {
        self.spec_numeric_level() <= 5
    }

    /// Get the numeric level (lower = higher rank).
    pub fn numeric_level(&self) -> (r: u8)
        ensures
            r == self.spec_numeric_level(),
    {
        match self {
            Self::Executive => 1,
            Self::VicePresident => 2,
            Self::Director => 3,
            Self::Manager => 4,
            Self::Lead => 5,
            Self::Senior => 6,
            Self::Mid => 7,
            Self::Junior => 8,
            Self::Entry => 9,
            Self::Intern => 10,
        }
    }

    /// Check if this level can manage another level: strictly higher rank only.
    pub fn can_manage(&self, other: &RoleLevel) -> (r: bool)
        ensures
            r == (self.spec_numeric_level() < other.spec_numeric_level()),
    {
        self.numeric_level() < other.numeric_level()
    }

    /// Check if this is a management level.
    pub fn is_management(&self) -> (r: bool)
        ensures
            r == self.spec_is_management(),
    {
        matches!(
            self,
            Self::Executive | Self::VicePresident | Self::Director | Self::Manager | Self::Lead
        )
    }

    /// Check if this is an individual contributor level.
    pub fn is_individual_contributor(&self) -> (r: bool)
        ensures
            r == !self.spec_is_management(),
    {
        matches!(
            self,
            Self::Senior | Self::Mid | Self::Junior | Self::Entry | Self::Intern
        )
    }

    /// Get the typical reporting span (min, max) of direct reports for this
    /// level; individual contributor levels have none.
    pub fn typical_reporting_span(&self) -> (r: (u8, u8))
        ensures
            r == match *self {
                RoleLevel::Executive => (3u8, 10u8),
                RoleLevel::VicePresident => (3u8, 8u8),
                RoleLevel::Director => (3u8, 7u8),
                RoleLevel::Manager => (3u8, 10u8),
                RoleLevel::Lead => (2u8, 6u8),
                _ => (0u8, 0u8),
            },
    {
        match self {
            Self::Executive => (3, 10),
            Self::VicePresident => (3, 8),
            Self::Director => (3, 7),
            Self::Manager => (3, 10),
            Self::Lead => (2, 6),
            _ => (0, 0),
        }
    }
}

impl Default for RoleLevel {
    fn default() -> (r: Self)
        ensures
            r == RoleLevel::Mid,
    {
        Self::Mid
    }
}

} // verus!
