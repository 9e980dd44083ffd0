//! The authenticated user.

use vstd::prelude::*;
use crate::text::{contains_text, clone_texts};

verus! {

/// Whether a sequence of strings holds the text `s`.
pub open spec fn holds_text(v: Seq<String>, s: Seq<char>) -> bool {
    exists|i: int| 0 <= i < v.len() && #[trigger] v[i]@ == s
}

/// Two principals hold the same user, token and permissions.
pub open spec fn same_principal(a: Principal, b: Principal) -> bool {
    &&& a.user_id@ == b.user_id@
    &&& a.username@ == b.username@
    &&& a.roles@ == b.roles@
    &&& a.permissions@ == b.permissions@
    &&& a.jti@ == b.jti@
    &&& a.token_version == b.token_version
}

/// An authenticated user, as the host's middleware builds it from a verified token.
#[derive(Debug)]
pub struct Principal {
    /// User id.
    pub user_id: String,
    /// User name.
    pub username: String,
    /// Roles.
    pub roles: Vec<String>,
    /// Permissions (expanded from the roles at login).
    pub permissions: Vec<String>,
    /// Unique id of the token, used to revoke it.
    pub jti: String,
    /// Token version, compared with the user's current version.
    pub token_version: u64,
}

impl Clone for Principal {
    fn clone(&self) -> (r: Self)
        ensures
            same_principal(r, *self),
    {
        Principal {
            user_id: self.user_id.clone(),
            username: self.username.clone(),
            roles: clone_texts(&self.roles),
            permissions: clone_texts(&self.permissions),
            jti: self.jti.clone(),
            token_version: self.token_version,
        }
    }
}

impl Principal {
    /// Whether the user holds the permission.
    pub fn has_permission(&self, permission: &str) -> (r: bool)
        ensures
            r == holds_text(self.permissions@, permission@),
    {
        contains_text(&self.permissions, permission)
    }

    /// Whether the user has the role.
    pub fn has_role(&self, role: &str) -> (r: bool)
        ensures
            r == holds_text(self.roles@, role@),
    {
        contains_text(&self.roles, role)
    }
}

} // verus!
