//! Authentication errors, their texts, and the HTTP answer that each gets.

use vstd::prelude::*;
use crate::text::two;

verus! {

/// An authentication error.
#[derive(Debug)]
pub enum AuthError {
    /// The token is invalid or expired.
    InvalidToken(String),
    /// The token has been revoked.
    TokenRevoked,
    /// Wrong user name or password.
    InvalidCredentials,
    /// Not enough permissions.
    Forbidden(String),
    /// No such user.
    UserNotFound(String),
    /// A database operation failed.
    DatabaseError(String),
    /// Password hashing failed.
    PasswordHashError(String),
    /// A JWT operation failed.
    JwtError(String),
    /// Internal error.
    Internal(String),
}

/// The text that displaying an authentication error yields.
pub open spec fn auth_error_text(e: AuthError) -> Seq<char> {
    match e {
        AuthError::InvalidToken(m) => "Token 无效: "@ + m@,
        AuthError::TokenRevoked => "Token 已被撤销"@,
        AuthError::InvalidCredentials => "用户名或密码错误"@,
        AuthError::Forbidden(m) => "权限不足: "@ + m@,
        AuthError::UserNotFound(m) => "用户不存在: "@ + m@,
        AuthError::DatabaseError(m) => "数据库错误: "@ + m@,
        AuthError::PasswordHashError(m) => "密码哈希错误: "@ + m@,
        AuthError::JwtError(m) => "JWT 错误: "@ + m@,
        AuthError::Internal(m) => "内部错误: "@ + m@,
    }
}

/// The HTTP status that an authentication error is answered with: 403 when forbidden,
/// 500 for database, hashing and internal errors, 401 otherwise.
pub open spec fn auth_error_status(e: AuthError) -> u16 {
    match e {
        AuthError::Forbidden(_) => 403,
        AuthError::DatabaseError(_) | AuthError::PasswordHashError(_) | AuthError::Internal(_) => 500,
        _ => 401,
    }
}

/// The error code that an authentication error is answered with.
pub open spec fn auth_error_code(e: AuthError) -> Seq<char> {
    match e {
        AuthError::InvalidToken(_) => "invalid_token"@,
        AuthError::TokenRevoked => "token_revoked"@,
        AuthError::InvalidCredentials => "invalid_credentials"@,
        AuthError::Forbidden(_) => "forbidden"@,
        AuthError::UserNotFound(_) => "user_not_found"@,
        AuthError::DatabaseError(_) => "database_error"@,
        AuthError::PasswordHashError(_) => "password_hash_error"@,
        AuthError::JwtError(_) => "jwt_error"@,
        AuthError::Internal(_) => "internal_error"@,
    }
}

/// The message that an authentication error is answered with: the carried text, or a
/// fixed sentence for the variants that carry none.
pub open spec fn auth_error_message(e: AuthError) -> Seq<char> {
    match e {
        AuthError::InvalidToken(m) => m@,
        AuthError::TokenRevoked => "Token 已被撤销"@,
        AuthError::InvalidCredentials => "用户名或密码错误"@,
        AuthError::Forbidden(m) => m@,
        AuthError::UserNotFound(m) => m@,
        AuthError::DatabaseError(m) => m@,
        AuthError::PasswordHashError(m) => m@,
        AuthError::JwtError(m) => m@,
        AuthError::Internal(m) => m@,
    }
}

/// An HTTP error answer: status, error code and message (the JSON body is
/// `{"error": code, "message": message}`, plus `"required"` when present).
#[derive(Debug, Clone)]
pub struct ErrorResponse {
    /// HTTP status code.
    pub status: u16,
    /// Machine-readable error code.
    pub error: String,
    /// Human-readable message.
    pub message: String,
    /// The permission that the request lacked, where one was required.
    pub required: Option<String>,
}

impl AuthError {
    /// The human-readable text of the error (what displaying it shows).
    pub fn text(&self) -> (r: String)
        ensures
            r@ == auth_error_text(*self),
    {
        match self {
            AuthError::InvalidToken(m) => two("Token 无效: ", m.as_str()),
            AuthError::TokenRevoked => String::from_str("Token 已被撤销"),
            AuthError::InvalidCredentials => String::from_str("用户名或密码错误"),
            AuthError::Forbidden(m) => two("权限不足: ", m.as_str()),
            AuthError::UserNotFound(m) => two("用户不存在: ", m.as_str()),
            AuthError::DatabaseError(m) => two("数据库错误: ", m.as_str()),
            AuthError::PasswordHashError(m) => two("密码哈希错误: ", m.as_str()),
            AuthError::JwtError(m) => two("JWT 错误: ", m.as_str()),
            AuthError::Internal(m) => two("内部错误: ", m.as_str()),
        }
    }
}

/// The HTTP answer to an authentication error: its status, code and message.
pub fn auth_error_response(e: &AuthError) -> (r: ErrorResponse)
    ensures
        r.status == auth_error_status(*e),
        r.error@ == auth_error_code(*e),
        r.message@ == auth_error_message(*e),
        r.required is None,
{
    let (status, code, message): (u16, &str, String) = match e {
        AuthError::InvalidToken(m) => (401, "invalid_token", m.clone()),
        AuthError::TokenRevoked => (401, "token_revoked", String::from_str("Token 已被撤销")),
        AuthError::InvalidCredentials => (401, "invalid_credentials", String::from_str("用户名或密码错误")),
        AuthError::Forbidden(m) => (403, "forbidden", m.clone()),
        AuthError::UserNotFound(m) => (401, "user_not_found", m.clone()),
        AuthError::DatabaseError(m) => (500, "database_error", m.clone()),
        AuthError::PasswordHashError(m) => (500, "password_hash_error", m.clone()),
        AuthError::JwtError(m) => (401, "jwt_error", m.clone()),
        AuthError::Internal(m) => (500, "internal_error", m.clone()),
    };
    ErrorResponse { status, error: String::from_str(code), message, required: None }
}

} // verus!
