//! Tests for the value objects: statuses, types, role levels, sizes,
//! addresses, phone numbers, roles and permissions.

use organization_domain::value_objects::{
    Address, OrganizationMember, OrganizationRole, OrganizationStatus, OrganizationType,
    Permission, PhoneNumber, RoleLevel, SizeCategory,
};

fn id() -> u128 {
    uuid::Uuid::new_v4().as_u128()
}

#[test]
fn test_status_transitions() {
    assert!(OrganizationStatus::Pending.can_transition_to(&OrganizationStatus::Active));
    assert!(OrganizationStatus::Active.can_transition_to(&OrganizationStatus::Inactive));
    assert!(!OrganizationStatus::Archived.can_transition_to(&OrganizationStatus::Active));
}

#[test]
fn test_operational_status() {
    assert!(OrganizationStatus::Active.is_operational());
    assert!(!OrganizationStatus::Dissolved.is_operational());
    assert!(OrganizationStatus::Active.can_have_members());
    assert!(!OrganizationStatus::Archived.can_have_members());
}

#[test]
fn test_valid_transitions_listing() {
    let from_pending = OrganizationStatus::Pending.valid_transitions();
    assert!(from_pending.contains(&OrganizationStatus::Active));
    assert!(from_pending.contains(&OrganizationStatus::Dissolved));
    assert_eq!(from_pending.len(), 2);
    assert!(OrganizationStatus::Archived.valid_transitions().is_empty());
}

#[test]
fn test_organization_type_hierarchy() {
    assert!(OrganizationType::Company.can_parent(&OrganizationType::Division));
    assert!(OrganizationType::Division.can_parent(&OrganizationType::Department));
    assert!(OrganizationType::Department.can_parent(&OrganizationType::Team));

    assert!(!OrganizationType::Team.can_parent(&OrganizationType::Department));
    assert!(!OrganizationType::Company.can_parent(&OrganizationType::Company));
}

#[test]
fn test_internal_external() {
    assert!(OrganizationType::Company.is_internal());
    assert!(OrganizationType::Team.is_internal());
    assert!(OrganizationType::Partner.is_external());
    assert!(OrganizationType::Customer.is_external());
}

#[test]
fn test_role_hierarchy() {
    assert!(RoleLevel::Executive.can_manage(&RoleLevel::Director));
    assert!(RoleLevel::Manager.can_manage(&RoleLevel::Senior));
    assert!(!RoleLevel::Junior.can_manage(&RoleLevel::Senior));
}

#[test]
fn test_role_categories() {
    assert!(RoleLevel::Director.is_management());
    assert!(!RoleLevel::Senior.is_management());
    assert!(RoleLevel::Junior.is_individual_contributor());
    assert!(!RoleLevel::Manager.is_individual_contributor());
}

#[test]
fn test_reporting_span() {
    let (min, max) = RoleLevel::Manager.typical_reporting_span();
    assert_eq!(min, 3);
    assert_eq!(max, 10);

    let (min, max) = RoleLevel::Senior.typical_reporting_span();
    assert_eq!(min, 0);
    assert_eq!(max, 0);
}

#[test]
fn test_size_category_from_count() {
    assert_eq!(SizeCategory::from_employee_count(5), SizeCategory::Startup);
    assert_eq!(SizeCategory::from_employee_count(25), SizeCategory::Small);
    assert_eq!(SizeCategory::from_employee_count(100), SizeCategory::Medium);
    assert_eq!(SizeCategory::from_employee_count(500), SizeCategory::Large);
    assert_eq!(SizeCategory::from_employee_count(2500), SizeCategory::Enterprise);
    assert_eq!(SizeCategory::from_employee_count(10000), SizeCategory::MegaCorp);
}

#[test]
fn test_employee_ranges() {
    let (min, max) = SizeCategory::Startup.employee_range();
    assert_eq!(min, 1);
    assert_eq!(max, Some(10));

    let (min, max) = SizeCategory::MegaCorp.employee_range();
    assert_eq!(min, 5001);
    assert_eq!(max, None);
}

#[test]
fn test_management_layers() {
    assert_eq!(SizeCategory::Startup.typical_management_layers(), 2);
    assert_eq!(SizeCategory::Enterprise.typical_management_layers(), 6);
}

#[test]
fn test_organization_size_categories() {
    assert_eq!(SizeCategory::from_employee_count(5), SizeCategory::Startup);
    assert_eq!(SizeCategory::from_employee_count(25), SizeCategory::Small);
    assert_eq!(SizeCategory::from_employee_count(100), SizeCategory::Medium);
    assert_eq!(SizeCategory::from_employee_count(500), SizeCategory::Large);
    assert_eq!(SizeCategory::from_employee_count(2500), SizeCategory::Enterprise);
    assert_eq!(SizeCategory::from_employee_count(10000), SizeCategory::MegaCorp);

    let startup = SizeCategory::Startup;
    assert_eq!(startup.typical_management_layers(), 2);
    assert_eq!(startup.employee_range(), (1, Some(10)));

    let enterprise = SizeCategory::Enterprise;
    assert_eq!(enterprise.typical_management_layers(), 6);
}

#[test]
fn test_valid_address() {
    let addr = Address::new(
        "123 Main St".to_string(),
        Some("Suite 100".to_string()),
        "San Francisco".to_string(),
        Some("CA".to_string()),
        Some("94105".to_string()),
        "USA".to_string(),
    )
    .unwrap();

    assert_eq!(addr.line1, "123 Main St");
    assert_eq!(addr.city, "San Francisco");
}

#[test]
fn test_invalid_address() {
    assert!(Address::new(
        "".to_string(),
        None,
        "City".to_string(),
        None,
        None,
        "Country".to_string(),
    )
    .is_err());
}

#[test]
fn test_address_error_messages() {
    let err = Address::new(
        "  ".to_string(),
        None,
        "City".to_string(),
        None,
        None,
        "Country".to_string(),
    )
    .unwrap_err();
    assert_eq!(err, "Address line 1 cannot be empty");

    let err = Address::new(
        "1 Road".to_string(),
        None,
        "".to_string(),
        None,
        None,
        "Country".to_string(),
    )
    .unwrap_err();
    assert_eq!(err, "City cannot be empty");

    let err = Address::new(
        "1 Road".to_string(),
        None,
        "City".to_string(),
        None,
        None,
        "\t".to_string(),
    )
    .unwrap_err();
    assert_eq!(err, "Country cannot be empty");
}

#[test]
fn test_address_single_line() {
    let addr = Address::new(
        "123 Main St".to_string(),
        Some("Suite 100".to_string()),
        "San Francisco".to_string(),
        Some("CA".to_string()),
        Some("94105".to_string()),
        "USA".to_string(),
    )
    .unwrap();
    assert_eq!(
        addr.format_single_line(),
        "123 Main St, Suite 100, San Francisco, CA, 94105, USA"
    );

    let short = Address::new(
        "1 Road".to_string(),
        None,
        "City".to_string(),
        None,
        None,
        "Country".to_string(),
    )
    .unwrap();
    assert_eq!(short.format_single_line(), "1 Road, City, Country");
}

#[test]
fn test_valid_phone_number() {
    let phone = PhoneNumber::new("+1 (555) 123-4567".to_string()).unwrap();
    assert_eq!(phone.as_str(), "+1 (555) 123-4567");
}

#[test]
fn test_invalid_phone_number() {
    assert!(PhoneNumber::new("123".to_string()).is_err());
    assert!(PhoneNumber::new("".to_string()).is_err());
}

#[test]
fn test_phone_number_error_messages() {
    assert_eq!(
        PhoneNumber::new("".to_string()).unwrap_err(),
        "Phone number cannot be empty"
    );
    assert_eq!(
        PhoneNumber::new("123456".to_string()).unwrap_err(),
        "Phone number must have at least 7 digits"
    );
}

#[test]
fn test_role_creation() {
    let role = OrganizationRole::new(
        "test-role".to_string(),
        "Test Role".to_string(),
        RoleLevel::Mid,
    );

    assert_eq!(role.role_code, "test-role");
    assert_eq!(role.title, "Test Role");
    assert_eq!(role.level, RoleLevel::Mid);
    assert!(role.permissions.is_empty());
}

#[test]
fn test_predefined_roles() {
    let ceo = OrganizationRole::ceo();
    assert_eq!(ceo.level, RoleLevel::Executive);
    assert!(ceo.has_permission(&Permission::CreateOrganization));
    assert!(ceo.has_permission(&Permission::ApproveBudget));

    let engineer = OrganizationRole::software_engineer();
    assert_eq!(engineer.level, RoleLevel::Mid);
    assert!(engineer.has_permission(&Permission::ViewOrganization));
    assert!(!engineer.has_permission(&Permission::ApproveBudget));
}

#[test]
fn test_role_permissions() {
    let ceo_role = OrganizationRole::ceo();
    assert!(ceo_role.has_permission(&Permission::CreateOrganization));
    assert!(ceo_role.has_permission(&Permission::ApproveBudget));

    let engineer_role = OrganizationRole::software_engineer();
    assert!(engineer_role.has_permission(&Permission::ViewOrganization));
    assert!(!engineer_role.has_permission(&Permission::ApproveBudget));
    assert!(!engineer_role.has_permission(&Permission::RemoveMember));

    let manager_role = OrganizationRole::engineering_manager();
    assert!(manager_role.has_permission(&Permission::AddMember));
    assert!(manager_role.has_permission(&Permission::UpdateMemberRole));
    assert!(!manager_role.has_permission(&Permission::DeleteOrganization));
}

#[test]
fn test_custom_permissions() {
    let mut role = OrganizationRole::new(
        "ops".to_string(),
        "Operator".to_string(),
        RoleLevel::Senior,
    );
    role.add_permission(Permission::Custom("restart_servers".to_string()));
    assert!(role.has_permission(&Permission::Custom("restart_servers".to_string())));
    assert!(!role.has_permission(&Permission::Custom("drop_database".to_string())));
    assert!(role.remove_permission(&Permission::Custom("restart_servers".to_string())));
    assert!(!role.has_permission(&Permission::Custom("restart_servers".to_string())));
}

#[test]
fn test_member_assignment() {
    let person = id();
    let org = id();
    let mut member = OrganizationMember::new(person, org, OrganizationRole::software_engineer());
    assert_eq!(member.person_id, person);
    assert_eq!(member.organization_id, org);
    assert_eq!(member.reports_to, None);

    let boss = id();
    member.set_reports_to(boss);
    assert_eq!(member.reports_to, Some(boss));
}

#[test]
fn test_member_active_status() {
    let now: u64 = 1_700_000_000_000;
    let day: u64 = 24 * 60 * 60 * 1000;
    let role = OrganizationRole::software_engineer();
    let mut member = OrganizationMember::new(id(), id(), role);

    assert!(member.is_active(now));

    // An end date in the past makes the assignment inactive.
    member.set_end_date(now - day);
    assert!(!member.is_active(now));

    // An end date in the future keeps it active.
    member.set_end_date(now + 30 * day);
    assert!(member.is_active(now));
}
