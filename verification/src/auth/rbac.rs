//! Roles and the permissions each grants.
use vstd::prelude::*;
use crate::text::{eq_ignore_ascii_case, matches_ignore_ascii_case};

verus! {

/// The role of a member of an organization.
#[derive(Debug, Clone, Copy, PartialEq, Eq, Structural)]
pub enum Role {
    Owner,
    Admin,
    Developer,
    Viewer,
}

/// The name of a role.
pub open spec fn role_name(r: Role) -> Seq<char> {
    match r {
        Role::Owner => "owner"@,
        Role::Admin => "admin"@,
        Role::Developer => "developer"@,
        Role::Viewer => "viewer"@,
    }
}

/// The role a name gives, ignoring the case of its letters.
///
/// The names are lower-cased before they are compared. Only ASCII letters
/// lower-case to the letters of the four names (the Kelvin sign lowers to `k`,
/// which none of them holds, and dotted capital I lowers to two characters), so
/// comparing without regard to ASCII case gives the same roles.
pub open spec fn role_named(s: Seq<char>) -> Option<Role> {
    if matches_ignore_ascii_case(s, "owner"@) {
        Some(Role::Owner)
    } else if matches_ignore_ascii_case(s, "admin"@) {
        Some(Role::Admin)
    } else if matches_ignore_ascii_case(s, "developer"@) {
        Some(Role::Developer)
    } else if matches_ignore_ascii_case(s, "viewer"@) {
        Some(Role::Viewer)
    } else {
        None
    }
}

/// How far a role reaches: the viewer least, the owner most.
pub open spec fn rank(r: Role) -> int {
    match r {
        Role::Viewer => 0,
        Role::Developer => 1,
        Role::Admin => 2,
        Role::Owner => 3,
    }
}

impl Role {
    /// The role a name gives (`owner`, `admin`, `developer`, `viewer`, in any case).
    pub fn from_str(s: &str) -> (r: Option<Role>)
        ensures
            r == role_named(s@),
    {
        if eq_ignore_ascii_case(s, "owner") {
            Some(Role::Owner)
        } else if eq_ignore_ascii_case(s, "admin") {
            Some(Role::Admin)
        } else if eq_ignore_ascii_case(s, "developer") {
            Some(Role::Developer)
        } else if eq_ignore_ascii_case(s, "viewer") {
            Some(Role::Viewer)
        } else {
            None
        }
    }

    /// The name of the role.
    pub fn as_str(&self) -> (r: &'static str)
        ensures
            r@ == role_name(*self),
    {
        match self {
            Role::Owner => "owner",
            Role::Admin => "admin",
            Role::Developer => "developer",
            Role::Viewer => "viewer",
        }
    }

    /// Owners and admins administer.
    pub fn can_administer(&self) -> (r: bool)
        ensures
            r == (*self == Role::Owner || *self == Role::Admin),
    {
        match self {
            Role::Owner | Role::Admin => true,
            _ => false,
        }
    }

    /// Every role but the viewer writes.
    pub fn can_write(&self) -> (r: bool)
        ensures
            r == (*self != Role::Viewer),
    {
        match self {
            Role::Viewer => false,
            _ => true,
        }
    }

    /// Every role reads.
    pub fn can_read(&self) -> (r: bool)
        ensures
            r,
    {
        true
    }
}

/// What a member may do.
#[derive(Debug, Clone, PartialEq, Eq, Structural)]
pub enum Permission {
    CreateProject,
    UpdateProject,
    DeleteProject,
    TriggerScan,
    ViewScan,
    ViewReport,
    ManageMembers,
    ManageApiKeys,
    ManageWebhooks,
    ManageSettings,
    ViewFindings,
    Administer,
}

/// The permissions of a role, in the order they are listed.
pub open spec fn permissions_of(role: Role) -> Seq<Permission> {
    match role {
        Role::Owner => seq![
            Permission::CreateProject, Permission::UpdateProject, Permission::DeleteProject,
            Permission::TriggerScan, Permission::ViewScan, Permission::ViewReport,
            Permission::ManageMembers, Permission::ManageApiKeys, Permission::ManageWebhooks,
            Permission::ManageSettings, Permission::ViewFindings, Permission::Administer,
        ],
        Role::Admin => seq![
            Permission::CreateProject, Permission::UpdateProject, Permission::DeleteProject,
            Permission::TriggerScan, Permission::ViewScan, Permission::ViewReport,
            Permission::ManageMembers, Permission::ManageApiKeys, Permission::ViewFindings,
        ],
        Role::Developer => seq![
            Permission::CreateProject, Permission::UpdateProject,
            Permission::TriggerScan, Permission::ViewScan, Permission::ViewReport,
            Permission::ViewFindings,
        ],
        Role::Viewer => seq![
            Permission::ViewScan, Permission::ViewReport, Permission::ViewFindings,
        ],
    }
}

/// The least role that holds a permission.
pub open spec fn least_role(p: Permission) -> Role {
    match p {
        Permission::ViewScan | Permission::ViewReport | Permission::ViewFindings => Role::Viewer,
        Permission::CreateProject | Permission::UpdateProject | Permission::TriggerScan => Role::Developer,
        Permission::DeleteProject | Permission::ManageMembers | Permission::ManageApiKeys => Role::Admin,
        Permission::ManageWebhooks | Permission::ManageSettings | Permission::Administer => Role::Owner,
    }
}

/// A role holds a permission exactly when it reaches the least role that holds it.
pub proof fn lemma_permissions_by_rank(role: Role, p: Permission)
    ensures
        permissions_of(role).contains(p) <==> rank(least_role(p)) <= rank(role),
{
    let s = permissions_of(role);
    if rank(least_role(p)) <= rank(role) {
        let i: int = match role {
            Role::Owner => match p {
                Permission::CreateProject => 0, Permission::UpdateProject => 1,
                Permission::DeleteProject => 2, Permission::TriggerScan => 3,
                Permission::ViewScan => 4, Permission::ViewReport => 5,
                Permission::ManageMembers => 6, Permission::ManageApiKeys => 7,
                Permission::ManageWebhooks => 8, Permission::ManageSettings => 9,
                Permission::ViewFindings => 10, Permission::Administer => 11,
            },
            Role::Admin => match p {
                Permission::CreateProject => 0, Permission::UpdateProject => 1,
                Permission::DeleteProject => 2, Permission::TriggerScan => 3,
                Permission::ViewScan => 4, Permission::ViewReport => 5,
                Permission::ManageMembers => 6, Permission::ManageApiKeys => 7,
                _ => 8,
            },
            Role::Developer => match p {
                Permission::CreateProject => 0, Permission::UpdateProject => 1,
                Permission::TriggerScan => 2, Permission::ViewScan => 3,
                Permission::ViewReport => 4, _ => 5,
            },
            Role::Viewer => match p {
                Permission::ViewScan => 0, Permission::ViewReport => 1, _ => 2,
            },
        };
        assert(s[i] == p);
    } else {
        assert forall|i: int| 0 <= i < s.len() implies s[i] != p by {
            assert(rank(least_role(s[i])) <= rank(role));
        }
    }
}

impl Permission {
    /// The permissions a role grants.
    pub fn requires_role(role: Role) -> (r: Vec<Permission>)
        ensures
            r@ == permissions_of(role),
    {
        let r = match role {
            Role::Owner => vec![
                Permission::CreateProject, Permission::UpdateProject, Permission::DeleteProject,
                Permission::TriggerScan, Permission::ViewScan, Permission::ViewReport,
                Permission::ManageMembers, Permission::ManageApiKeys, Permission::ManageWebhooks,
                Permission::ManageSettings, Permission::ViewFindings, Permission::Administer,
            ],
            Role::Admin => vec![
                Permission::CreateProject, Permission::UpdateProject, Permission::DeleteProject,
                Permission::TriggerScan, Permission::ViewScan, Permission::ViewReport,
                Permission::ManageMembers, Permission::ManageApiKeys, Permission::ViewFindings,
            ],
            Role::Developer => vec![
                Permission::CreateProject, Permission::UpdateProject,
                Permission::TriggerScan, Permission::ViewScan, Permission::ViewReport,
                Permission::ViewFindings,
            ],
            Role::Viewer => vec![
                Permission::ViewScan, Permission::ViewReport, Permission::ViewFindings,
            ],
        };
        proof {
            assert(r@ =~= permissions_of(role));
        }
        r
    }

    /// Whether a role grants a permission.
    pub fn has_permission(role: Role, permission: &Permission) -> (r: bool)
        ensures
            r == permissions_of(role).contains(*permission),
    {
        let perms = Permission::requires_role(role);
        let mut i: usize = 0;
        while i < perms.len()
            invariant
                i <= perms.len(),
                perms@ == permissions_of(role),
                forall|j: int| 0 <= j < i ==> perms@[j] != *permission,
            decreases perms.len() - i,
        {
            if perms[i] == *permission {
                return true;
            }
            i = i + 1;
        }
        false
    }
}

} // verus!
