//! Value objects for the organization domain.

pub mod address;
pub mod organization_role;
pub mod organization_status;
pub mod organization_type;
pub mod phone_number;
pub mod role_level;
pub mod size_category;

pub use address::Address;
pub use organization_role::{MemberV, OrganizationMember, OrganizationRole, Permission, RoleV};
pub use organization_status::OrganizationStatus;
pub use organization_type::OrganizationType;
pub use phone_number::PhoneNumber;
pub use role_level::RoleLevel;
pub use size_category::SizeCategory;
