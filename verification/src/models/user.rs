//! User-related models.

use vstd::prelude::*;

verus! {

/// Authenticated user information.
#[derive(Clone, Debug)]
pub struct User {
    /// The stable subject identifier.
    pub id: String,
    /// The user's email address.
    pub email: String,
    /// A display name, when one is known.
    pub name: Option<String>,
    /// An avatar location, when one is known.
    pub picture: Option<String>,
    /// The roles the user acts under.
    pub roles: Vec<String>,
    /// The workspace the user works in, when one is set.
    pub workspace_id: Option<String>,
}

/// API key information.
#[derive(Clone, Debug)]
pub struct ApiKeyInfo {
    /// The key's own identifier.
    pub id: String,
    /// The user the key belongs to.
    pub user_id: String,
    /// The key's display name.
    pub name: String,
    /// The scopes the key grants.
    pub scopes: Vec<String>,
    /// When the key was created.
    pub created_at: String,
    /// When the key expires, if it does.
    pub expires_at: Option<String>,
}

/// Token pair for auth refresh.
#[derive(Clone, Debug)]
pub struct TokenPair {
    /// The short-lived access token.
    pub access_token: String,
    /// The token that obtains the next pair.
    pub refresh_token: String,
    /// Seconds until the access token expires.
    pub expires_in: u64,
    /// The scheme the access token is used under.
    pub token_type: String,
}

/// User context for cross-service propagation: identity and active
/// workspace for multi-tenant data isolation.
#[derive(Clone, Debug)]
pub struct UserContext {
    /// The stable subject identifier.
    pub user_id: String,
    /// The user's email address.
    pub email: String,
    /// The workspace the request acts in.
    pub workspace_id: String,
    /// The roles the user acts under.
    pub roles: Vec<String>,
}

impl UserContext {
    /// Create a context from a user and the workspace the request acts in.
    pub fn from_user(user: &User, workspace_id: String) -> (r: Self)
        ensures
            r.user_id@ == user.id@,
            r.email@ == user.email@,
            r.workspace_id@ == workspace_id@,
            r.roles.deep_view() == user.roles.deep_view(),
    {
        proof {
            broadcast use vstd::std_specs::vec::vec_clone_deep_view_proof;
        }
        UserContext {
            user_id: user.id.clone(),
            email: user.email.clone(),
            workspace_id,
            roles: user.roles.clone(),
        }
    }
}

} // verus!
