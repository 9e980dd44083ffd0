//! Authentication: users and their permissions, token claims, revocation decisions,
//! the route authorization decision, and the login steps.

pub mod ctx;
pub mod error;
pub mod jwt;
pub mod middleware;
pub mod principal;
pub mod routes;
pub mod service;

pub use ctx::RequestCtx;
pub use error::AuthError;
pub use jwt::JwtClaims;
pub use principal::Principal;
pub use service::AuthService;
