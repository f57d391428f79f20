//! Organization role value object and member assignment record.

use vstd::prelude::*;
use crate::ids::fresh_id;
use crate::clock::now_millis;
use crate::text::dup_opt_string;
use super::role_level::RoleLevel;

verus! {

/// Permissions that can be assigned to roles.
#[derive(Debug, Clone, PartialEq, Eq, Hash)]
pub enum Permission {
    // Organization management
    CreateOrganization,
    UpdateOrganization,
    DeleteOrganization,
    ViewOrganization,
    // Member management
    AddMember,
    RemoveMember,
    UpdateMemberRole,
    ViewMembers,
    // Hierarchy management
    CreateSubUnit,
    RemoveSubUnit,
    ModifyHierarchy,
    // Budget and finance
    ViewBudget,
    ApproveBudget,
    ModifyBudget,
    // Reporting
    ViewReports,
    CreateReports,
    ExportData,
    // Custom permissions
    Custom(String),
}

/// Two permissions denote the same right: the same variant, and for custom
/// permissions the same name.
pub open spec fn permission_matches(a: Permission, b: Permission) -> bool {
    match (a, b) {
        (Permission::CreateOrganization, Permission::CreateOrganization) => true,
        (Permission::UpdateOrganization, Permission::UpdateOrganization) => true,
        (Permission::DeleteOrganization, Permission::DeleteOrganization) => true,
        (Permission::ViewOrganization, Permission::ViewOrganization) => true,
        (Permission::AddMember, Permission::AddMember) => true,
        (Permission::RemoveMember, Permission::RemoveMember) => true,
        (Permission::UpdateMemberRole, Permission::UpdateMemberRole) => true,
        (Permission::ViewMembers, Permission::ViewMembers) => true,
        (Permission::CreateSubUnit, Permission::CreateSubUnit) => true,
        (Permission::RemoveSubUnit, Permission::RemoveSubUnit) => true,
        (Permission::ModifyHierarchy, Permission::ModifyHierarchy) => true,
        (Permission::ViewBudget, Permission::ViewBudget) => true,
        (Permission::ApproveBudget, Permission::ApproveBudget) => true,
        (Permission::ModifyBudget, Permission::ModifyBudget) => true,
        (Permission::ViewReports, Permission::ViewReports) => true,
        (Permission::CreateReports, Permission::CreateReports) => true,
        (Permission::ExportData, Permission::ExportData) => true,
        (Permission::Custom(x), Permission::Custom(y)) => x@ == y@,
        _ => false,
    }
}

/// A sequence of permissions grants a permission when some element matches it.
pub open spec fn has_perm(ps: Seq<Permission>, p: Permission) -> bool {
    exists|i: int| 0 <= i < ps.len() && permission_matches(#[trigger] ps[i], p)
}

impl Permission {
    /// Decide whether two permissions denote the same right.
    pub fn same_as(&self, other: &Permission) -> (r: bool)
        ensures
            r == permission_matches(*self, *other),
    {
        match (self, other) {
            (Permission::CreateOrganization, Permission::CreateOrganization) => true,
            (Permission::UpdateOrganization, Permission::UpdateOrganization) => true,
            (Permission::DeleteOrganization, Permission::DeleteOrganization) => true,
            (Permission::ViewOrganization, Permission::ViewOrganization) => true,
            (Permission::AddMember, Permission::AddMember) => true,
            (Permission::RemoveMember, Permission::RemoveMember) => true,
            (Permission::UpdateMemberRole, Permission::UpdateMemberRole) => true,
            (Permission::ViewMembers, Permission::ViewMembers) => true,
            (Permission::CreateSubUnit, Permission::CreateSubUnit) => true,
            (Permission::RemoveSubUnit, Permission::RemoveSubUnit) => true,
            (Permission::ModifyHierarchy, Permission::ModifyHierarchy) => true,
            (Permission::ViewBudget, Permission::ViewBudget) => true,
            (Permission::ApproveBudget, Permission::ApproveBudget) => true,
            (Permission::ModifyBudget, Permission::ModifyBudget) => true,
            (Permission::ViewReports, Permission::ViewReports) => true,
            (Permission::CreateReports, Permission::CreateReports) => true,
            (Permission::ExportData, Permission::ExportData) => true,
            (Permission::Custom(x), Permission::Custom(y)) => *x == *y,
            _ => false,
        }
    }

    /// Copy this permission.
    pub fn duplicate(&self) -> (r: Permission)
        ensures
            r == *self,
    {
        match self {
            Permission::CreateOrganization => Permission::CreateOrganization,
            Permission::UpdateOrganization => Permission::UpdateOrganization,
            Permission::DeleteOrganization => Permission::DeleteOrganization,
            Permission::ViewOrganization => Permission::ViewOrganization,
            Permission::AddMember => Permission::AddMember,
            Permission::RemoveMember => Permission::RemoveMember,
            Permission::UpdateMemberRole => Permission::UpdateMemberRole,
            Permission::ViewMembers => Permission::ViewMembers,
            Permission::CreateSubUnit => Permission::CreateSubUnit,
            Permission::RemoveSubUnit => Permission::RemoveSubUnit,
            Permission::ModifyHierarchy => Permission::ModifyHierarchy,
            Permission::ViewBudget => Permission::ViewBudget,
            Permission::ApproveBudget => Permission::ApproveBudget,
            Permission::ModifyBudget => Permission::ModifyBudget,
            Permission::ViewReports => Permission::ViewReports,
            Permission::CreateReports => Permission::CreateReports,
            Permission::ExportData => Permission::ExportData,
            Permission::Custom(s) => Permission::Custom(s.clone()),
        }
    }
}

/// Abstract value of an [`OrganizationRole`].
pub struct RoleV {
    pub role_id: u128,
    pub role_code: Seq<char>,
    pub title: Seq<char>,
    pub department: Option<Seq<char>>,
    pub level: RoleLevel,
    pub permissions: Seq<Permission>,
}

/// A role within an organization.
#[derive(Debug, Clone, PartialEq, Eq)]
pub struct OrganizationRole {
    /// Unique identifier for this role
    pub role_id: u128,
    /// Human-readable role identifier (e.g., "ENG_MGR", "CEO")
    pub role_code: String,
    /// Display title for the role
    pub title: String,
    /// Department or area this role belongs to
    pub department: Option<String>,
    /// Role level in the hierarchy
    pub level: RoleLevel,
    /// Permissions associated with this role
    pub permissions: Vec<Permission>,
}

impl View for OrganizationRole {
    type V = RoleV;

    open spec fn view(&self) -> RoleV {
        RoleV {
            role_id: self.role_id,
            role_code: self.role_code@,
            title: self.title@,
            department: match self.department {
                Some(d) => Some(d@),
                None => None,
            },
            level: self.level,
            permissions: self.permissions@,
        }
    }
}

impl OrganizationRole {
    /// Create a new organization role with a fresh identifier and no
    /// permissions.
    pub fn new(role_code: String, title: String, level: RoleLevel) -> (r: Self)
        ensures
            r@.role_code == role_code@,
            r@.title == title@,
            r@.level == level,
            r@.department is None,
            r@.permissions == Seq::<Permission>::empty(),
    {
        Self {
            role_id: fresh_id(),
            role_code,
            title,
            department: None,
            level,
            permissions: Vec::new(),
        }
    }

    /// Create a role with a specific identifier (for imports or tests).
    pub fn with_id(role_id: u128, role_code: String, title: String, level: RoleLevel) -> (r: Self)
        ensures
            r@.role_id == role_id,
            r@.role_code == role_code@,
            r@.title == title@,
            r@.level == level,
            r@.department is None,
            r@.permissions == Seq::<Permission>::empty(),
    {
        Self {
            role_id,
            role_code,
            title,
            department: None,
            level,
            permissions: Vec::new(),
        }
    }

    /// Check if this role has a specific permission.
    pub fn has_permission(&self, permission: &Permission) -> (r: bool)
        ensures
            r == has_perm(self@.permissions, *permission),
    {
        let n = self.permissions.len();
        for i in 0..n
            invariant
                n == self.permissions@.len(),
                forall|j: int|
                    0 <= j < i ==> !permission_matches(#[trigger] self.permissions@[j], *permission),
        {
            if self.permissions[i].same_as(permission) {
                return true;
            }
        }
        false
    }

    /// Add a permission to this role; granting a permission the role already
    /// has leaves it unchanged.
    pub fn add_permission(&mut self, permission: Permission)
        ensures
            (final(self)@ == RoleV {
                permissions: if has_perm(old(self)@.permissions, permission) {
                    old(self)@.permissions
                } else {
                    old(self)@.permissions.push(permission)
                },
                ..old(self)@
            }),
    {
        if !self.has_permission(&permission) {
            self.permissions.push(permission);
        }
    }

    /// Remove a permission from this role; reports whether it was present.
    pub fn remove_permission(&mut self, permission: &Permission) -> (r: bool)
        ensures
            r == has_perm(old(self)@.permissions, *permission),
            !has_perm(final(self)@.permissions, *permission),
            final(self)@.role_id == old(self)@.role_id,
            final(self)@.role_code == old(self)@.role_code,
            final(self)@.title == old(self)@.title,
            final(self)@.department == old(self)@.department,
            final(self)@.level == old(self)@.level,
            forall|p: Permission|
                has_perm(final(self)@.permissions, p) ==> has_perm(old(self)@.permissions, p),
            forall|p: Permission|
                has_perm(old(self)@.permissions, p) && !permission_matches(p, *permission)
                    && !permission_matches(*permission, p)
                    ==> has_perm(final(self)@.permissions, p),
    {
        let n = self.permissions.len();
        let mut kept: Vec<Permission> = Vec::new();
        let mut found = false;
        for i in 0..n
            invariant
                n == self.permissions@.len(),
                found == exists|j: int|
                    0 <= j < i && permission_matches(#[trigger] self.permissions@[j], *permission),
                forall|j: int|
                    0 <= j < kept@.len() ==> !permission_matches(#[trigger] kept@[j], *permission),
                forall|j: int|
                    0 <= j < kept@.len() ==> has_perm(self.permissions@, #[trigger] kept@[j]),
                forall|j: int|
                    0 <= j < i && !permission_matches(#[trigger] self.permissions@[j], *permission)
                        ==> has_perm(kept@, self.permissions@[j]),
        {
            let keep = !self.permissions[i].same_as(permission);
            if keep {
                let ghost pre = kept@;
                kept.push(self.permissions[i].duplicate());
                proof {
                    assert(kept@.last() == self.permissions@[i as int]);
                    assert forall|j: int|
                        0 <= j < i + 1
                            && !permission_matches(#[trigger] self.permissions@[j], *permission)
                        implies has_perm(kept@, self.permissions@[j]) by {
                        if j < i {
                            let w = choose|w: int|
                                0 <= w < pre.len()
                                    && permission_matches(#[trigger] pre[w], self.permissions@[j]);
                            assert(permission_matches(kept@[w], self.permissions@[j]));
                        } else {
                            assert(permission_matches(
                                kept@[kept@.len() - 1],
                                self.permissions@[j],
                            ));
                        }
                    }
                }
            } else {
                found = true;
            }
        }
        self.permissions = kept;
        proof {
            assert forall|p: Permission| has_perm(self@.permissions, p)
                implies has_perm(old(self)@.permissions, p) by {
                let j = choose|j: int|
                    0 <= j < self.permissions@.len()
                        && permission_matches(#[trigger] self.permissions@[j], p);
                let w = choose|w: int|
                    0 <= w < old(self)@.permissions.len()
                        && permission_matches(
                        #[trigger] old(self)@.permissions[w],
                        self.permissions@[j],
                    );
                assert(permission_matches(old(self)@.permissions[w], p)) by {
                    lemma_permission_matches_trans(
                        old(self)@.permissions[w],
                        self.permissions@[j],
                        p,
                    );
                }
            }
            assert forall|p: Permission|
                has_perm(old(self)@.permissions, p) && !permission_matches(p, *permission)
                    && !permission_matches(*permission, p)
                implies has_perm(self@.permissions, p) by {
                let j = choose|j: int|
                    0 <= j < old(self)@.permissions.len()
                        && permission_matches(#[trigger] old(self)@.permissions[j], p);
                assert(!permission_matches(old(self)@.permissions[j], *permission)) by {
                    if permission_matches(old(self)@.permissions[j], *permission) {
                        lemma_permission_matches_sym(old(self)@.permissions[j], p);
                        lemma_permission_matches_trans(p, old(self)@.permissions[j], *permission);
                    }
                }
                let w = choose|w: int|
                    0 <= w < self.permissions@.len()
                        && permission_matches(
                        #[trigger] self.permissions@[w],
                        old(self)@.permissions[j],
                    );
                lemma_permission_matches_trans(self.permissions@[w], old(self)@.permissions[j], p);
            }
        }
        found
    }

    /// Set the department for this role.
    pub fn set_department(&mut self, department: String)
        ensures
            (final(self)@ == RoleV { department: Some(department@), ..old(self)@ }),
    {
        self.department = Some(department);
    }

    /// Copy this role.
    pub fn duplicate(&self) -> (r: Self)
        ensures
            r@ == self@,
    {
        let n = self.permissions.len();
        let mut ps: Vec<Permission> = Vec::new();
        for i in 0..n
            invariant
                n == self.permissions@.len(),
                ps@.len() == i,
                forall|j: int| 0 <= j < i ==> ps@[j] == self.permissions@[j],
        {
            ps.push(self.permissions[i].duplicate());
        }
        proof {
            assert(ps@ =~= self.permissions@);
        }
        let r = Self {
            role_id: self.role_id,
            role_code: self.role_code.clone(),
            title: self.title.clone(),
            department: dup_opt_string(&self.department),
            level: self.level,
            permissions: ps,
        };
        r
    }

    /// Create a CEO role, holding every standard permission.
    pub fn ceo() -> (r: Self)
        ensures
            r@.role_code == "CEO"@,
            r@.title == "Chief Executive Officer"@,
            r@.level == RoleLevel::Executive,
            r@.permissions == standard_permissions(),
    {
        let mut role = Self::new(
            "CEO".to_owned(),
            "Chief Executive Officer".to_owned(),
            RoleLevel::Executive,
        );
        role.permissions = standard_permission_vec();
        role
    }

    /// Create a CTO role: everything but organization creation/deletion and
    /// budget approval/modification.
    pub fn cto() -> (r: Self)
        ensures
            r@.role_code == "CTO"@,
            r@.title == "Chief Technology Officer"@,
            r@.level == RoleLevel::Executive,
            r@.permissions == seq![
                Permission::ViewOrganization,
                Permission::UpdateOrganization,
                Permission::AddMember,
                Permission::RemoveMember,
                Permission::UpdateMemberRole,
                Permission::ViewMembers,
                Permission::CreateSubUnit,
                Permission::RemoveSubUnit,
                Permission::ModifyHierarchy,
                Permission::ViewBudget,
                Permission::ViewReports,
                Permission::CreateReports,
                Permission::ExportData,
            ],
    {
        let mut role = Self::new(
            "CTO".to_owned(),
            "Chief Technology Officer".to_owned(),
            RoleLevel::Executive,
        );
        role.permissions = vec![
            Permission::ViewOrganization,
            Permission::UpdateOrganization,
            Permission::AddMember,
            Permission::RemoveMember,
            Permission::UpdateMemberRole,
            Permission::ViewMembers,
            Permission::CreateSubUnit,
            Permission::RemoveSubUnit,
            Permission::ModifyHierarchy,
            Permission::ViewBudget,
            Permission::ViewReports,
            Permission::CreateReports,
            Permission::ExportData,
        ];
        role
    }

    /// Create a VP of Engineering role.
    pub fn vp_engineering() -> (r: Self)
        ensures
            r@.role_code == "VP_ENG"@,
            r@.title == "Vice President of Engineering"@,
            r@.level == RoleLevel::VicePresident,
            r@.permissions == seq![
                Permission::ViewOrganization,
                Permission::AddMember,
                Permission::RemoveMember,
                Permission::UpdateMemberRole,
                Permission::ViewMembers,
                Permission::CreateSubUnit,
                Permission::ViewBudget,
                Permission::ViewReports,
                Permission::CreateReports,
                Permission::ExportData,
            ],
    {
        let mut role = Self::new(
            "VP_ENG".to_owned(),
            "Vice President of Engineering".to_owned(),
            RoleLevel::VicePresident,
        );
        role.permissions = vec![
            Permission::ViewOrganization,
            Permission::AddMember,
            Permission::RemoveMember,
            Permission::UpdateMemberRole,
            Permission::ViewMembers,
            Permission::CreateSubUnit,
            Permission::ViewBudget,
            Permission::ViewReports,
            Permission::CreateReports,
            Permission::ExportData,
        ];
        role
    }

    /// Create an engineering manager role.
    pub fn engineering_manager() -> (r: Self)
        ensures
            r@.role_code == "ENG_MGR"@,
            r@.title == "Engineering Manager"@,
            r@.level == RoleLevel::Manager,
            r@.permissions == seq![
                Permission::ViewOrganization,
                Permission::AddMember,
                Permission::UpdateMemberRole,
                Permission::ViewMembers,
                Permission::ViewBudget,
                Permission::ViewReports,
                Permission::CreateReports,
            ],
    {
        let mut role = Self::new(
            "ENG_MGR".to_owned(),
            "Engineering Manager".to_owned(),
            RoleLevel::Manager,
        );
        role.permissions = vec![
            Permission::ViewOrganization,
            Permission::AddMember,
            Permission::UpdateMemberRole,
            Permission::ViewMembers,
            Permission::ViewBudget,
            Permission::ViewReports,
            Permission::CreateReports,
        ];
        role
    }

    /// Create a software engineer role.
    pub fn software_engineer() -> (r: Self)
        ensures
            r@.role_code == "SW_ENG"@,
            r@.title == "Software Engineer"@,
            r@.level == RoleLevel::Mid,
            r@.permissions == seq![
                Permission::ViewOrganization,
                Permission::ViewMembers,
                Permission::ViewReports,
            ],
    {
        let mut role = Self::new(
            "SW_ENG".to_owned(),
            "Software Engineer".to_owned(),
            RoleLevel::Mid,
        );
        role.permissions = vec![
            Permission::ViewOrganization,
            Permission::ViewMembers,
            Permission::ViewReports,
        ];
        role
    }
}

/// The full set of standard (non-custom) permissions, in declaration order.
pub open spec fn standard_permissions() -> Seq<Permission> {
    seq![
        Permission::CreateOrganization,
        Permission::UpdateOrganization,
        Permission::DeleteOrganization,
        Permission::ViewOrganization,
        Permission::AddMember,
        Permission::RemoveMember,
        Permission::UpdateMemberRole,
        Permission::ViewMembers,
        Permission::CreateSubUnit,
        Permission::RemoveSubUnit,
        Permission::ModifyHierarchy,
        Permission::ViewBudget,
        Permission::ApproveBudget,
        Permission::ModifyBudget,
        Permission::ViewReports,
        Permission::CreateReports,
        Permission::ExportData,
    ]
}

/// Build the full set of standard permissions.
fn standard_permission_vec() -> (r: Vec<Permission>)
    ensures
        r@ == standard_permissions(),
{
    let r = vec![
        Permission::CreateOrganization,
        Permission::UpdateOrganization,
        Permission::DeleteOrganization,
        Permission::ViewOrganization,
        Permission::AddMember,
        Permission::RemoveMember,
        Permission::UpdateMemberRole,
        Permission::ViewMembers,
        Permission::CreateSubUnit,
        Permission::RemoveSubUnit,
        Permission::ModifyHierarchy,
        Permission::ViewBudget,
        Permission::ApproveBudget,
        Permission::ModifyBudget,
        Permission::ViewReports,
        Permission::CreateReports,
        Permission::ExportData,
    ];
    proof {
        assert(r@ =~= standard_permissions());
    }
    r
}

/// Matching of permissions is symmetric.
pub proof fn lemma_permission_matches_sym(a: Permission, b: Permission)
    requires
        permission_matches(a, b),
    ensures
        permission_matches(b, a),
{
}

/// Matching of permissions is transitive.
pub proof fn lemma_permission_matches_trans(a: Permission, b: Permission, c: Permission)
    requires
        permission_matches(a, b),
        permission_matches(b, c),
    ensures
        permission_matches(a, c),
{
}

/// Abstract value of an [`OrganizationMember`].
pub struct MemberV {
    pub person_id: u128,
    pub organization_id: u128,
    pub role: RoleV,
    pub department_id: Option<u128>,
    pub joined_at: u64,
    pub ends_at: Option<u64>,
    pub reports_to: Option<u128>,
}

/// Member assignment in an organization: a person, the role they hold, the
/// department they sit in, when they joined and whom they report to.
#[derive(Debug, Clone, PartialEq, Eq)]
pub struct OrganizationMember {
    /// Person ID
    pub person_id: u128,
    /// Organization ID
    pub organization_id: u128,
    /// Role within the organization
    pub role: OrganizationRole,
    /// Department the member belongs to, if any
    pub department_id: Option<u128>,
    /// When they joined, milliseconds since the epoch
    pub joined_at: u64,
    /// When their role ends, if the assignment is temporary
    pub ends_at: Option<u64>,
    /// Reports to (manager/supervisor person ID)
    pub reports_to: Option<u128>,
}

impl View for OrganizationMember {
    type V = MemberV;

    open spec fn view(&self) -> MemberV {
        MemberV {
            person_id: self.person_id,
            organization_id: self.organization_id,
            role: self.role@,
            department_id: self.department_id,
            joined_at: self.joined_at,
            ends_at: self.ends_at,
            reports_to: self.reports_to,
        }
    }
}

impl OrganizationMember {
    /// Create a new member assignment joining now, with no department and no
    /// manager. The join time is read from the clock.
    pub fn new(person_id: u128, organization_id: u128, role: OrganizationRole) -> (r: Self)
        ensures
            r@.person_id == person_id,
            r@.organization_id == organization_id,
            r@.role == role@,
            r@.department_id is None,
            r@.ends_at is None,
            r@.reports_to is None,
    {
        Self {
            person_id,
            organization_id,
            role,
            department_id: None,
            joined_at: now_millis(),
            ends_at: None,
            reports_to: None,
        }
    }

    /// Whether the assignment is active at the given time: it is unless an
    /// end date has passed.
    pub fn is_active(&self, now: u64) -> (r: bool)
        ensures
            r == match self@.ends_at {
                Some(end) => now < end,
                None => true,
            },
    {
        match self.ends_at {
            Some(end) => now < end,
            None => true,
        }
    }

    /// Set an end date for this role assignment.
    pub fn set_end_date(&mut self, end_date: u64)
        ensures
            (final(self)@ == MemberV { ends_at: Some(end_date), ..old(self)@ }),
    {
        self.ends_at = Some(end_date);
    }

    /// Set the reporting relationship.
    pub fn set_reports_to(&mut self, manager_id: u128)
        ensures
            (final(self)@ == MemberV { reports_to: Some(manager_id), ..old(self)@ }),
    {
        self.reports_to = Some(manager_id);
    }

    /// Copy this member assignment.
    pub fn duplicate(&self) -> (r: Self)
        ensures
            r@ == self@,
    {
        Self {
            person_id: self.person_id,
            organization_id: self.organization_id,
            role: self.role.duplicate(),
            department_id: self.department_id,
            joined_at: self.joined_at,
            ends_at: self.ends_at,
            reports_to: self.reports_to,
        }
    }
}

} // verus!
