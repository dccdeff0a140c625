//! Caller identity resolution.
//!
//! A request resolves to an identity in a fixed order: the development
//! bypass, a bearer token verified against the authentication service, an
//! API key validated against it, and otherwise a rejection. The calls to
//! the authentication service are the caller's; the decisions around them
//! are made here.

use vstd::prelude::*;
use vstd::string::StrSliceExecFns;
use vstd::string::StringExecFns;

use crate::error::AppError;
use crate::models::user::ApiKeyInfo;
use crate::models::user::User;
use crate::text::starts_with;
use crate::text::str_starts_with;

verus! {

/// The user a request resolved to, carried with the request from then on.
#[derive(Clone, Debug)]
pub struct AuthenticatedUser(pub User);

/// The fixed development identity used while the bypass flag is set.
pub fn demo_user() -> (r: User)
    ensures
        r.id@ == "demo-user-001"@,
        r.email@ == "demo@confuse.dev"@,
        (r.name matches Some(n) && n@ == "Demo User"@),
        r.picture is None,
        r.roles@.len() == 1 && r.roles@[0]@ == "user"@,
        r.workspace_id is None,
{
    let mut roles: Vec<String> = Vec::new();
    roles.push(String::from_str("user"));
    User {
        id: String::from_str("demo-user-001"),
        email: String::from_str("demo@confuse.dev"),
        name: Some(String::from_str("Demo User")),
        picture: None,
        roles,
        workspace_id: None,
    }
}

/// What the admission layer decides about a request's credentials before
/// anything is called.
#[derive(Debug)]
pub enum IdentityResolution {
    /// The request is settled without any call: an identity or a rejection.
    Done(Result<User, AppError>),
    /// The carried bearer token must be verified by the authentication service.
    NeedTokenVerify(String),
    /// The carried API key must be validated by the authentication service.
    NeedApiKeyValidation(String),
}

/// Decide how a request's credentials are resolved: the bypass yields the
/// development identity at once; a bearer token or an API key names the
/// call to make; a malformed authorization header or no credentials at all
/// are rejected at once, each with its own message.
pub fn resolve_identity_step(
    bypass_enabled: bool,
    auth_header: Option<&str>,
    api_key: Option<&str>,
) -> (r: IdentityResolution)
    ensures
        ({
            if bypass_enabled {
                r matches IdentityResolution::Done(Ok(u)) && u.id@ == "demo-user-001"@
                    && u.email@ == "demo@confuse.dev"@
                    && (u.name matches Some(n) && n@ == "Demo User"@)
                    && u.picture is None
                    && u.roles@.len() == 1 && u.roles@[0]@ == "user"@
                    && u.workspace_id is None
            } else {
                match auth_header {
                    Some(h) => {
                        if starts_with(h@, "Bearer "@) {
                            r matches IdentityResolution::NeedTokenVerify(t)
                                && t@ == h@.skip(7)
                        } else {
                            r matches IdentityResolution::Done(Err(e))
                                && e.spec_code() == "UNAUTHORIZED"@
                                && e.spec_message() == "Invalid authorization header format"@
                        }
                    },
                    None => match api_key {
                        Some(k) => r matches IdentityResolution::NeedApiKeyValidation(t)
                            && t@ == k@,
                        None => r matches IdentityResolution::Done(Err(e))
                            && e.spec_code() == "UNAUTHORIZED"@
                            && e.spec_message() == "No authentication provided"@,
                    },
                }
            }
        }),
{
    if bypass_enabled {
        return IdentityResolution::Done(Ok(demo_user()));
    }
    match auth_header {
        Some(h) => {
            if str_starts_with(h, "Bearer ") {
                proof {
                    reveal_strlit("Bearer ");
                }
                let n = h.unicode_len();
                let token = h.substring_char(7, n);
                proof {
                    assert(token@ =~= h@.skip(7));
                }
                IdentityResolution::NeedTokenVerify(String::from_str(token))
            } else {
                IdentityResolution::Done(Err(AppError::Unauthorized(
                    String::from_str("Invalid authorization header format"),
                )))
            }
        },
        None => match api_key {
            Some(k) => IdentityResolution::NeedApiKeyValidation(String::from_str(k)),
            None => IdentityResolution::Done(Err(AppError::Unauthorized(
                String::from_str("No authentication provided"),
            ))),
        },
    }
}

/// Synthesize the identity an API key acts as from what the authentication
/// service said about it: the key's user, a key-scoped address, and the
/// key's scopes as roles.
pub fn user_from_api_key(info: ApiKeyInfo) -> (r: User)
    ensures
        r.id@ == info.user_id@,
        r.email@ == "api-key-"@ + info.id@ + "@confuse.dev"@,
        (r.name matches Some(n) && n@ == info.name@),
        r.picture is None,
        r.roles == info.scopes,
        r.workspace_id is None,
{
    let mut email = String::from_str("api-key-");
    email.append(info.id.as_str());
    email.append("@confuse.dev");
    User {
        id: info.user_id,
        email,
        name: Some(info.name),
        picture: None,
        roles: info.scopes,
        workspace_id: None,
    }
}

/// Finish the API key path with what the authentication service answered.
pub fn identity_from_api_key_result(answer: Result<ApiKeyInfo, AppError>) -> (r: Result<User, AppError>)
    ensures
        answer matches Ok(info) ==> (r matches Ok(u) && u.id@ == info.user_id@
            && u.email@ == "api-key-"@ + info.id@ + "@confuse.dev"@
            && (u.name matches Some(n) && n@ == info.name@)
            && u.roles == info.scopes),
        answer matches Err(e) ==> (r matches Err(e2) && e2 == e),
{
    match answer {
        Ok(info) => Ok(user_from_api_key(info)),
        Err(e) => Err(e),
    }
}

/// Decide how optional authentication resolves: the bypass yields the
/// development identity, a bearer token names the call to make, and
/// anything else leaves the request unauthenticated without rejecting it.
pub fn optional_identity_step(bypass_enabled: bool, auth_header: Option<&str>) -> (r: IdentityResolution)
    ensures
        ({
            if bypass_enabled {
                r matches IdentityResolution::Done(Ok(u)) && u.id@ == "demo-user-001"@
                    && u.email@ == "demo@confuse.dev"@
                    && (u.name matches Some(n) && n@ == "Demo User"@)
                    && u.picture is None
                    && u.roles@.len() == 1 && u.roles@[0]@ == "user"@
                    && u.workspace_id is None
            } else {
                match auth_header {
                    Some(h) => {
                        if starts_with(h@, "Bearer "@) {
                            r matches IdentityResolution::NeedTokenVerify(t) && t@ == h@.skip(7)
                        } else {
                            r matches IdentityResolution::Done(Err(e))
                                && e.spec_code() == "UNAUTHORIZED"@
                        }
                    },
                    None => r matches IdentityResolution::Done(Err(e))
                        && e.spec_code() == "UNAUTHORIZED"@,
                }
            }
        }),
{
    resolve_identity_step(bypass_enabled, auth_header, None)
}

/// Finish the optional path: a verification failure leaves the request
/// unauthenticated instead of rejecting it.
pub fn optional_from_token_result(answer: Result<User, AppError>) -> (r: Option<User>)
    ensures
        answer matches Ok(u) ==> (r matches Some(u2) && u2 == u),
        answer is Err ==> r is None,
{
    match answer {
        Ok(u) => Some(u),
        Err(_) => None,
    }
}

} // verus!
