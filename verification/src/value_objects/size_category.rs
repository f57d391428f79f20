//! Size category value object.

use vstd::prelude::*;

verus! {

/// Size classification for organizations based on employee count.
#[derive(Debug, Clone, Copy, PartialEq, Eq, Hash, Structural)]
pub enum SizeCategory {
    /// 1-10 employees
    Startup,
    /// 11-50 employees
    Small,
    /// 51-250 employees
    Medium,
    /// 251-1000 employees
    Large,
    /// 1001-5000 employees
    Enterprise,
    /// 5000+ employees
    MegaCorp,
}

impl SizeCategory {
    /// The category an employee count falls into.
    pub open spec fn spec_from_employee_count(count: usize) -> SizeCategory {
        if count <= 10 {
            SizeCategory::Startup
        } else if count <= 50 {
            SizeCategory::Small
        } else if count <= 250 {
            SizeCategory::Medium
        } else if count <= 1000 {
            SizeCategory::Large
        } else if count <= 5000 {
            SizeCategory::Enterprise
        } else {
            SizeCategory::MegaCorp
        }
    }

    /// Get the size category based on employee count.
    pub fn from_employee_count(count: usize) -> (r: Self)
        ensures
            r == Self::spec_from_employee_count(count),
    {
        if count <= 10 {
            Self::Startup
        } else if count <= 50 {
            Self::Small
        } else if count <= 250 {
            Self::Medium
        } else if count <= 1000 {
            Self::Large
        } else if count <= 5000 {
            Self::Enterprise
        } else {
            Self::MegaCorp
        }
    }

    /// Get the employee count range for this category; the upper bound is
    /// `None` for the open-ended largest category.
    pub fn employee_range(&self) -> (r: (usize, Option<usize>))
        ensures
            r == match *self {
                SizeCategory::Startup => (1usize, Some(10usize)),
                SizeCategory::Small => (11usize, Some(50usize)),
                SizeCategory::Medium => (51usize, Some(250usize)),
                SizeCategory::Large => (251usize, Some(1000usize)),
                SizeCategory::Enterprise => (1001usize, Some(5000usize)),
                SizeCategory::MegaCorp => (5001usize, None::<usize>),
            },
    {
        match self {
            Self::Startup => (1, Some(10)),
            Self::Small => (11, Some(50)),
            Self::Medium => (51, Some(250)),
            Self::Large => (251, Some(1000)),
            Self::Enterprise => (1001, Some(5000)),
            Self::MegaCorp => (5001, None),
        }
    }

    /// Get the typical number of departments (min, max) for this size.
    pub fn typical_department_count(&self) -> (r: (usize, usize))
        ensures
            r == match *self {
                SizeCategory::Startup => (1usize, 3usize),
                SizeCategory::Small => (3usize, 8usize),
                SizeCategory::Medium => (8usize, 20usize),
                SizeCategory::Large => (20usize, 50usize),
                SizeCategory::Enterprise => (50usize, 200usize),
                SizeCategory::MegaCorp => (200usize, 1000usize),
            },
    {
        match self {
            Self::Startup => (1, 3),
            Self::Small => (3, 8),
            Self::Medium => (8, 20),
            Self::Large => (20, 50),
            Self::Enterprise => (50, 200),
            Self::MegaCorp => (200, 1000),
        }
    }

    /// Get the typical number of management layers for this size.
    pub fn typical_management_layers(&self) -> (r: usize)
        ensures
            r == match *self {
                SizeCategory::Startup => 2usize,
                SizeCategory::Small => 3usize,
                SizeCategory::Medium => 4usize,
                SizeCategory::Large => 5usize,
                SizeCategory::Enterprise => 6usize,
                SizeCategory::MegaCorp => 7usize,
            },
    {
        match self {
            Self::Startup => 2,
            Self::Small => 3,
            Self::Medium => 4,
            Self::Large => 5,
            Self::Enterprise => 6,
            Self::MegaCorp => 7,
        }
    }
}

impl Default for SizeCategory {
    fn default() -> (r: Self)
        ensures
            r == SizeCategory::Small,
    {
        Self::Small
    }
}

} // verus!
