//! The request context handed to plugin route handlers.

use vstd::prelude::*;
use crate::auth::error::AuthError;
use crate::auth::principal::{Principal, holds_text};
use crate::auth::service::AuthService;
use crate::database::DatabaseExt;
use crate::event_bus::EventBus;
use std::sync::Arc;

verus! {

/// Everything a plugin route handler may use: the authenticated user, the
/// authentication service, the database, the event bus, and identifiers.
pub struct RequestCtx {
    /// The authenticated user; `None` on public routes.
    pub principal: Option<Principal>,
    /// The authentication service.
    pub auth_service: Arc<dyn AuthService>,
    /// The database.
    pub db: Arc<dyn DatabaseExt>,
    /// The event bus.
    pub event_bus: Arc<EventBus>,
    /// Id of the plugin that handles the request.
    pub plugin_id: String,
    /// Unique id of the request, for logs.
    pub request_id: String,
}

impl Clone for RequestCtx {
    /// The field-by-field clone that `derive(Clone)` writes: `Arc::clone` on the shared
    /// service, database and event-bus handles, `clone` on the rest. Cloning a handle to a
    /// trait object cannot be written in checked code, so this body is trusted; nothing
    /// about the copy is stated.
    #[verifier::external_body]
    fn clone(&self) -> Self {
        RequestCtx {
            principal: self.principal.clone(),
            auth_service: Arc::clone(&self.auth_service),
            db: Arc::clone(&self.db),
            event_bus: Arc::clone(&self.event_bus),
            plugin_id: self.plugin_id.clone(),
            request_id: self.request_id.clone(),
        }
    }
}

impl RequestCtx {
    /// The authenticated user, if any.
    pub fn current_user(&self) -> (r: Option<&Principal>)
        ensures
            r == match self.principal { Some(p) => Some(&p), None => None::<&Principal> },
    {
        match &self.principal {
            Some(p) => Some(p),
            None => None,
        }
    }

    /// The authenticated user, or an `InvalidToken` error when there is none.
    pub fn require_user(&self) -> (r: Result<&Principal, AuthError>)
        ensures
            self.principal matches Some(p) ==> r == Ok::<&Principal, AuthError>(&p),
            self.principal is None ==> (r matches Err(AuthError::InvalidToken(m)) && m@ == "未认证"@),
    {
        match &self.principal {
            Some(p) => Ok(p),
            None => Err(AuthError::InvalidToken(String::from_str("未认证"))),
        }
    }

    /// Whether there is an authenticated user and the user holds the permission.
    pub fn has_permission(&self, permission: &str) -> (r: bool)
        ensures
            r == (self.principal matches Some(p) && holds_text(p.permissions@, permission@)),
    {
        match &self.principal {
            Some(p) => p.has_permission(permission),
            None => false,
        }
    }
}

} // verus!
