//! Who makes a request, as the authentication middleware establishes it.
//! Identifiers are UUIDs, held as their 128-bit values.
use vstd::prelude::*;
use crate::auth::rbac::{permissions_of, Permission, Role};

verus! {

/// The identity and role of the caller of a request.
#[derive(Debug, Clone)]
pub struct AuthContext {
    pub user_id: u128,
    pub email: String,
    pub role: Role,
    pub org_id: Option<u128>,
    pub is_authenticated: bool,
}

impl AuthContext {
    /// The context of a caller that did not authenticate: the nil user, no
    /// email, the viewer role, no organization.
    pub fn anonymous() -> (r: AuthContext)
        ensures
            r.user_id == 0,
            r.email@ == Seq::<char>::empty(),
            r.role == Role::Viewer,
            r.org_id is None,
            !r.is_authenticated,
    {
        AuthContext { user_id: 0, email: String::new(), role: Role::Viewer, org_id: None, is_authenticated: false }
    }

    /// The context of an authenticated caller.
    pub fn new(user_id: u128, email: String, role: Role, org_id: Option<u128>) -> (r: AuthContext)
        ensures
            r.user_id == user_id,
            r.email == email,
            r.role == role,
            r.org_id == org_id,
            r.is_authenticated,
    {
        AuthContext { user_id, email, role, org_id, is_authenticated: true }
    }

    /// Whether the caller's role grants a permission.
    pub fn has_permission(&self, permission: &Permission) -> (r: bool)
        ensures
            r == permissions_of(self.role).contains(*permission),
    {
        Permission::has_permission(self.role, permission)
    }
}

} // verus!
