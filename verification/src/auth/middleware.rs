//! The decisions of the authentication middleware: which token a request carries, and
//! whether a route's requirement lets the request through.

use vstd::prelude::*;
use crate::auth::error::{ErrorResponse, AuthError, auth_error_response, auth_error_status, auth_error_code, auth_error_message};
use crate::auth::service::AuthService;
use crate::auth::principal::{Principal, holds_text};
use crate::plugin::AuthRequirement;
use crate::text::strip_prefix;

verus! {

/// The token of an `Authorization` header value: what follows `"Bearer "`.
pub open spec fn bearer_token(header: Option<Seq<char>>) -> Option<Seq<char>> {
    match header {
        Some(h) => crate::text::without_prefix(h, "Bearer "@),
        None => None,
    }
}

/// The bearer token carried by an `Authorization` header value (`None` when there is no
/// such header or it does not start with `"Bearer "`).
pub fn extract_token(authorization: Option<&str>) -> (r: Option<String>)
    ensures
        match bearer_token(match authorization { Some(h) => Some(h@), None => None }) {
            Some(t) => r matches Some(x) && x@ == t,
            None => r is None,
        },
{
    match authorization {
        Some(h) => strip_prefix(h, "Bearer "),
        None => None,
    }
}

/// Whether a route with this requirement admits a caller authenticated as `principal`.
pub open spec fn admits(req: AuthRequirement, principal: Option<Principal>) -> bool {
    match req {
        AuthRequirement::Public => true,
        AuthRequirement::Authenticated => principal is Some,
        AuthRequirement::Permission(perm) => principal matches Some(p) && holds_text(p.permissions@, perm@),
    }
}

/// Decides whether a request may reach a route: `Ok` when the requirement admits the
/// caller; otherwise 401 `unauthorized` ("需要登录") when nobody is logged in, or 403
/// `forbidden` ("权限不足") when the logged-in user lacks the permission, naming the
/// permission when one was required.
pub fn authorize(requirement: &AuthRequirement, principal: &Option<Principal>) -> (r: Result<(), ErrorResponse>)
    ensures
        r is Ok <==> admits(*requirement, *principal),
        r matches Err(e) ==> {
            &&& (principal is None ==> e.status == 401 && e.error@ == "unauthorized"@ && e.message@ == "需要登录"@)
            &&& (principal is Some ==> e.status == 403 && e.error@ == "forbidden"@ && e.message@ == "权限不足"@)
            &&& match *requirement {
                AuthRequirement::Permission(perm) => e.required matches Some(q) && q@ == perm@,
                _ => e.required is None,
            }
        },
{
    match requirement {
        AuthRequirement::Public => Ok(()),
        AuthRequirement::Authenticated => match principal {
            Some(_) => Ok(()),
            None => Err(ErrorResponse {
                status: 401,
                error: String::from_str("unauthorized"),
                message: String::from_str("需要登录"),
                required: None,
            }),
        },
        AuthRequirement::Permission(perm) => match principal {
            Some(p) => {
                if p.has_permission(perm) {
                    Ok(())
                } else {
                    Err(ErrorResponse {
                        status: 403,
                        error: String::from_str("forbidden"),
                        message: String::from_str("权限不足"),
                        required: Some(String::from_str(perm)),
                    })
                }
            },
            None => Err(ErrorResponse {
                status: 401,
                error: String::from_str("unauthorized"),
                message: String::from_str("需要登录"),
                required: Some(String::from_str(perm)),
            }),
        },
    }
}

/// A caller who is not logged in reaches exactly the public routes; a logged-in caller
/// reaches every route that does not require a permission, and a permission route only
/// when holding that permission.
pub proof fn lemma_admission(req: AuthRequirement, principal: Option<Principal>)
    ensures
        principal is None ==> (admits(req, principal) <==> req is Public),
        principal matches Some(p) ==> (admits(req, principal) <==> match req {
            AuthRequirement::Permission(perm) => holds_text(p.permissions@, perm@),
            _ => true,
        }),
{
}

/// `resp` is the answer to the authentication error `e` (see [`auth_error_response`]).
pub open spec fn answers(e: AuthError, resp: ErrorResponse) -> bool {
    &&& resp.status == auth_error_status(e)
    &&& resp.error@ == auth_error_code(e)
    &&& resp.message@ == auth_error_message(e)
    &&& resp.required is None
}

/// The id of the plugin handling a request: the one the route carries, or `unknown`.
pub open spec fn handling_plugin(plugin_id: Option<Seq<char>>) -> Seq<char> {
    match plugin_id {
        Some(p) => p,
        None => "unknown"@,
    }
}

/// The decision of the authentication middleware for one request: the bearer token of the
/// `Authorization` header (see [`extract_token`]), when there is one, is verified by the
/// service, and a failed check is answered with that error (see [`auth_error_response`]);
/// then the route's requirement is applied (see [`authorize`]). Admitted, the request goes
/// on with the verified user (none without a token) and the handling plugin's id (`unknown`
/// when the route carries none).
pub fn admit_request(
    auth: &dyn AuthService,
    requirement: &AuthRequirement,
    authorization: Option<&str>,
    plugin_id: Option<&str>,
) -> (r: Result<(Option<Principal>, String), ErrorResponse>)
    ensures
        r matches Ok((_, id)) ==> id@ == handling_plugin(match plugin_id { Some(p) => Some(p@), None => None }),
        bearer_token(match authorization { Some(h) => Some(h@), None => None }) is None ==> {
            &&& (r is Ok <==> admits(*requirement, None))
            &&& r matches Ok((p, _)) ==> p is None
            &&& r matches Err(e) ==> e.status == 401 && e.error@ == "unauthorized"@ && e.message@ == "需要登录"@
                && match *requirement {
                    AuthRequirement::Permission(perm) => e.required matches Some(q) && q@ == perm@,
                    _ => e.required is None,
                }
        },
        bearer_token(match authorization { Some(h) => Some(h@), None => None }) is Some ==> {
            &&& r matches Ok((p, _)) ==> p is Some && admits(*requirement, p)
            &&& r matches Err(e) ==> (exists|ae: AuthError| #[trigger] answers(ae, e)) || (e.status == 403
                && e.error@ == "forbidden"@ && e.message@ == "权限不足"@
                && (*requirement matches AuthRequirement::Permission(perm) && e.required matches Some(q) && q@ == perm@))
        },
{
    let token = extract_token(authorization);
    let principal = match token {
        Some(t) => match auth.verify_token(t.as_str()) {
            Ok(p) => Some(p),
            Err(e) => {
                let resp = auth_error_response(&e);
                assert(answers(e, resp));
                return Err(resp);
            },
        },
        None => None,
    };
    match authorize(requirement, &principal) {
        Ok(()) => {},
        Err(e) => return Err(e),
    }
    let id = match plugin_id {
        Some(p) => String::from_str(p),
        None => String::from_str("unknown"),
    };
    Ok((principal, id))
}

} // verus!
