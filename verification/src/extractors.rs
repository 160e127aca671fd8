//! Role guards over the claims of a role token attached to a request.
use vstd::prelude::*;
use crate::error::AppError;
use crate::auth::jwt::Claims as SessionClaims;
use crate::models::{Claims, Role};

verus! {

/// Claims of a request made by a user with credentials (the `Admin` role).
pub struct RequireUser(pub Claims);

/// Claims of a request made by an inspector.
pub struct RequireInspector(pub Claims);

/// Claims of the request if it carries any, of any role.
pub struct OptionalClaims(pub Option<Claims>);

/// The user guard lets the claims through: there are claims, of the
/// `Admin` role.
pub open spec fn user_guard_admits(claims: Option<Claims>) -> bool {
    claims matches Some(c) && c.role == Role::Admin
}

/// The inspector guard lets the claims through: there are claims, of the
/// `Inspector` role.
pub open spec fn inspector_guard_admits(claims: Option<Claims>) -> bool {
    claims matches Some(c) && c.role == Role::Inspector
}

impl RequireUser {
    /// No claims on the request means the authentication layer is not
    /// attached to the route: an internal error (500), not a refusal of the
    /// client; claims of another role: forbidden.
    pub fn from_claims(claims: Option<Claims>) -> (guard: Result<RequireUser, AppError>)
        ensures
            guard is Ok <==> user_guard_admits(claims),
            claims is None ==> guard matches Err(AppError::MissingClaims),
            claims matches Some(c) ==> if c.role == Role::Admin {
                guard matches Ok(RequireUser(g)) && g == c
            } else {
                guard matches Err(AppError::Forbidden)
            },
    {
        match claims {
            None => Err(AppError::MissingClaims),
            Some(c) => if c.role == Role::Admin {
                Ok(RequireUser(c))
            } else {
                Err(AppError::Forbidden)
            },
        }
    }
}

impl RequireInspector {
    /// No claims: unauthorised; claims of another role: forbidden.
    pub fn from_claims(claims: Option<Claims>) -> (guard: Result<RequireInspector, AppError>)
        ensures
            guard is Ok <==> inspector_guard_admits(claims),
            claims is None ==> guard matches Err(AppError::Unauthorized),
            claims matches Some(c) ==> if c.role == Role::Inspector {
                guard matches Ok(RequireInspector(g)) && g == c
            } else {
                guard matches Err(AppError::Forbidden)
            },
    {
        match claims {
            None => Err(AppError::Unauthorized),
            Some(c) => if c.role == Role::Inspector {
                Ok(RequireInspector(c))
            } else {
                Err(AppError::Forbidden)
            },
        }
    }
}

impl OptionalClaims {
    /// Whatever claims the request carries; never refused.
    pub fn from_claims(claims: Option<Claims>) -> (guard: Result<OptionalClaims, AppError>)
        ensures
            guard matches Ok(OptionalClaims(g)) && g == claims,
    {
        Ok(OptionalClaims(claims))
    }
}

/// The access-token claims that the Bearer guard attached to a request.
pub struct SessionUser(pub SessionClaims);

impl SessionUser {
    /// The claims the guard attached; none means the guard is not attached to
    /// the route: an internal error (500).
    pub fn from_claims(claims: Option<SessionClaims>) -> (guard: Result<SessionUser, AppError>)
        ensures
            claims is None ==> guard matches Err(AppError::MissingClaims),
            claims matches Some(c) ==> (guard matches Ok(SessionUser(g)) && g == c),
    {
        match claims {
            None => Err(AppError::MissingClaims),
            Some(c) => Ok(SessionUser(c)),
        }
    }
}

/// A permission check: the store answered whether the user holds the
/// permission.
pub struct RequirePermission;

impl RequirePermission {
    /// Without the permission the request is forbidden.
    pub fn from_grant(granted: bool) -> (allowed: Result<(), AppError>)
        ensures
            granted ==> allowed is Ok,
            !granted ==> allowed matches Err(AppError::Forbidden),
    {
        if granted {
            Ok(())
        } else {
            Err(AppError::Forbidden)
        }
    }
}

/// The two role guards never both let the same request through: whatever
/// claims it carries, `RequireUser::from_claims` and
/// `RequireInspector::from_claims` do not both succeed.
pub proof fn lemma_role_guards_exclusive(claims: Option<Claims>)
    ensures
        !(user_guard_admits(claims) && inspector_guard_admits(claims)),
{
}

} // verus!
