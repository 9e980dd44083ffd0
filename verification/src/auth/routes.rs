//! The steps of the authentication endpoints that decide rather than fetch: reading a
//! user row, checking a password, the role and permission queries, and reading a
//! token's id without verifying it.

use vstd::prelude::*;
use crate::auth::error::AuthError;
use crate::database::{DatabaseExt, DbValue};
use crate::auth::jwt::{JwtService, hs256_checked, claims_in_payload, text_list};
use crate::text::{i64_text, decimal, split_text, split_on};
use base64::Engine;

verus! {

/// A login request.
#[derive(Debug)]
pub struct LoginRequest {
    /// User name.
    pub username: String,
    /// Password.
    pub password: String,
}

/// The user as a login answer shows it.
#[derive(Debug)]
pub struct UserInfo {
    /// User id.
    pub id: String,
    /// User name.
    pub username: String,
    /// Roles.
    pub roles: Vec<String>,
    /// Permissions.
    pub permissions: Vec<String>,
}

/// A login answer.
#[derive(Debug)]
pub struct LoginResponse {
    /// The issued token.
    pub token: String,
    /// The logged-in user.
    pub user: UserInfo,
    /// When the token expires (RFC 3339).
    pub expires_at: String,
}

/// What a user row `(id, username, password_hash, token_version)` yields: the id as
/// decimal text, the name, the password hash and the token version (the stored integer
/// reinterpreted as unsigned); or the internal error naming the first malformed column.
pub open spec fn user_row_reading(row: Seq<DbValue>) -> Result<(Seq<char>, Seq<char>, Seq<char>, u64), Seq<char>> {
    if !(row[0] is Int) {
        Err("用户 ID 格式错误"@)
    } else if !(row[1] is Text) {
        Err("用户名格式错误"@)
    } else if !(row[2] is Text) {
        Err("密码哈希格式错误"@)
    } else if !(row[3] is Int) {
        Err("token_version 格式错误"@)
    } else {
        Ok((decimal(row[0]->Int_0 as int), row[1]->Text_0@, row[2]->Text_0@, row[3]->Int_0 as u64))
    }
}

/// Reads a user row `(id, username, password_hash, token_version)`: the id as decimal
/// text, the name, the password hash and the token version; an `Internal` error naming
/// the first column that does not hold the expected type.
pub fn parse_user_row(row: &Vec<DbValue>) -> (r: Result<(String, String, String, u64), AuthError>)
    requires
        row@.len() >= 4,
    ensures
        match user_row_reading(row@) {
            Ok((id, name, hash, version)) => r matches Ok((a, b, c, d))
                && a@ == id && b@ == name && c@ == hash && d == version,
            Err(m) => r matches Err(AuthError::Internal(x)) && x@ == m,
        },
{
    let user_id = match &row[0] {
        DbValue::Int(v) => i64_text(*v),
        _ => return Err(AuthError::Internal(String::from_str("用户 ID 格式错误"))),
    };
    let username = match &row[1] {
        DbValue::Text(v) => v.clone(),
        _ => return Err(AuthError::Internal(String::from_str("用户名格式错误"))),
    };
    let password_hash = match &row[2] {
        DbValue::Text(v) => v.clone(),
        _ => return Err(AuthError::Internal(String::from_str("密码哈希格式错误"))),
    };
    let token_version = match &row[3] {
        DbValue::Int(v) => *v as u64,
        _ => return Err(AuthError::Internal(String::from_str("token_version 格式错误"))),
    };
    Ok((user_id, username, password_hash, token_version))
}

/// What `bcrypt::verify` answers for a password and a stored hash: whether they match,
/// or `None` when the hash cannot be read.
pub uninterp spec fn bcrypt_verdict(password: Seq<char>, hash: Seq<char>) -> Option<bool>;

/// `bcrypt::verify(password, hash)`: whether the password matches the stored hash, or the
/// text of the error when the hash cannot be read. The result depends on the two
/// arguments alone; the error text is not stated.
#[verifier::external_body]
fn bcrypt_verify(password: &str, hash: &str) -> (r: Result<bool, String>)
    ensures
        match bcrypt_verdict(password@, hash@) {
            Some(b) => r == Ok::<bool, String>(b),
            None => r is Err,
        },
{
    bcrypt::verify(password, hash).map_err(|e| e.to_string())
}

/// Checks a password against a stored bcrypt hash: `Ok(())` when it matches,
/// `InvalidCredentials` when it does not, `PasswordHashError` when the hash cannot be read.
pub fn check_password(password: &str, password_hash: &str) -> (r: Result<(), AuthError>)
    ensures
        match bcrypt_verdict(password@, password_hash@) {
            Some(true) => r is Ok,
            Some(false) => r matches Err(AuthError::InvalidCredentials),
            None => r matches Err(AuthError::PasswordHashError(_)),
        },
{
    match bcrypt_verify(password, password_hash) {
        Ok(true) => Ok(()),
        Ok(false) => Err(AuthError::InvalidCredentials),
        Err(e) => Err(AuthError::PasswordHashError(e)),
    }
}

/// The roles of a user: in this single-administrator design, every user has the role
/// `admin`.
pub fn get_user_roles(user_id: &str) -> (r: Result<Vec<String>, AuthError>)
    ensures
        r matches Ok(v) && v@.len() == 1 && v@[0]@ == "admin"@,
{
    let mut v: Vec<String> = Vec::new();
    v.push(String::from_str("admin"));
    Ok(v)
}

/// `n` question marks separated by commas.
pub open spec fn placeholders(n: nat) -> Seq<char>
    decreases n,
{
    if n == 0 {
        Seq::<char>::empty()
    } else if n == 1 {
        seq!['?']
    } else {
        placeholders((n - 1) as nat) + seq![',', '?']
    }
}

/// The statement that reads the distinct permissions of a list of roles, with one
/// bound parameter per role.
pub open spec fn permissions_sql(n: nat) -> Seq<char> {
    "SELECT DISTINCT permission FROM role_permissions WHERE role IN ("@ + placeholders(n) + ")"@
}

/// The statement and the parameters of the permission query for a non-empty list of
/// roles: one placeholder and one text parameter per role, in order.
pub fn permissions_query(roles: &Vec<String>) -> (r: (String, Vec<DbValue>))
    requires
        roles@.len() > 0,
    ensures
        r.0@ == permissions_sql(roles@.len()),
        r.1@.len() == roles@.len(),
        forall|i: int| 0 <= i < roles@.len() ==> (#[trigger] r.1@[i] matches DbValue::Text(t) && t@ == roles@[i]@),
{
    let mut marks = String::new();
    let mut params: Vec<DbValue> = Vec::new();
    let mut i: usize = 0;
    proof {
        reveal_strlit("?");
        reveal_strlit(",?");
    }
    while i < roles.len()
        invariant
            i <= roles@.len(),
            marks@ == placeholders(i as nat),
            params@.len() == i,
            forall|k: int| 0 <= k < i ==> (#[trigger] params@[k] matches DbValue::Text(t) && t@ == roles@[k]@),
            "?"@ == seq!['?'],
            ",?"@ == seq![',', '?'],
        decreases roles@.len() - i,
    {
        if i == 0 {
            marks.append("?");
        } else {
            marks.append(",?");
        }
        params.push(DbValue::Text(roles[i].clone()));
        i = i + 1;
        proof {
            if i == 1 {
                assert(marks@ =~= placeholders(1));
            }
        }
    }
    let sql = crate::text::three(
        "SELECT DISTINCT permission FROM role_permissions WHERE role IN (",
        marks.as_str(),
        ")",
    );
    (sql, params)
}

/// The permission names of query rows: the first column of each row that holds text.
pub open spec fn permissions_of_rows(rows: Seq<Vec<DbValue>>) -> Seq<Seq<char>>
    decreases rows.len(),
{
    if rows.len() == 0 {
        Seq::<Seq<char>>::empty()
    } else {
        let rest = permissions_of_rows(rows.drop_last());
        let row = rows.last()@;
        if row.len() > 0 && row[0] is Text {
            rest.push(row[0]->Text_0@)
        } else {
            rest
        }
    }
}

/// The permission names of query rows: the first column of each row whose first
/// column holds text, in order.
pub fn permissions_from_rows(rows: &Vec<Vec<DbValue>>) -> (r: Vec<String>)
    ensures
        r@.len() == permissions_of_rows(rows@).len(),
        forall|i: int| 0 <= i < r@.len() ==> #[trigger] r@[i]@ == permissions_of_rows(rows@)[i],
{
    let mut r: Vec<String> = Vec::new();
    let mut i: usize = 0;
    while i < rows.len()
        invariant
            i <= rows@.len(),
            r@.len() == permissions_of_rows(rows@.take(i as int)).len(),
            forall|k: int| 0 <= k < r@.len() ==> #[trigger] r@[k]@ == permissions_of_rows(rows@.take(i as int))[k],
        decreases rows@.len() - i,
    {
        proof {
            assert(rows@.take(i + 1).drop_last() =~= rows@.take(i as int));
        }
        let row = &rows[i];
        if row.len() > 0 {
            match &row[0] {
                DbValue::Text(p) => r.push(p.clone()),
                _ => {},
            }
        }
        i = i + 1;
    }
    proof {
        assert(rows@.take(rows@.len() as int) =~= rows@);
    }
    r
}

/// The permissions of a list of roles, read from the `role_permissions` table: none for no
/// roles (without a query); otherwise the first-column texts of the rows the permission
/// query returns, or `DatabaseError` with the database error's text.
pub fn get_user_permissions(db: &dyn DatabaseExt, roles: &Vec<String>) -> (r: Result<Vec<String>, AuthError>)
    ensures
        roles@.len() == 0 ==> (r matches Ok(v) && v@.len() == 0),
        r matches Err(e) ==> e is DatabaseError,
        r matches Ok(v) ==> roles@.len() == 0 || exists|rows: Seq<Vec<DbValue>>| text_list(v@) == #[trigger] permissions_of_rows(rows),
{
    if roles.len() == 0 {
        return Ok(Vec::new());
    }
    let (sql, params) = permissions_query(roles);
    match db.query_with(sql.as_str(), params.as_slice()) {
        Ok(rows) => {
            let v = permissions_from_rows(&rows);
            assert(text_list(v@) =~= permissions_of_rows(rows@));
            Ok(v)
        },
        Err(e) => Err(AuthError::DatabaseError(e.text())),
    }
}

/// How long a login token lives: a day.
pub const LOGIN_TOKEN_TTL_SECS: u64 = 86400;

/// `(chrono::Utc::now() + chrono::Duration::seconds(ttl_secs)).to_rfc3339()`: the time
/// `ttl_secs` seconds from now. Nothing is stated of it. The bound keeps the duration and
/// the sum inside chrono's range (about 2,700 years ahead).
#[verifier::external_body]
fn rfc3339_after(ttl_secs: u64) -> String
    requires
        ttl_secs <= 86_400_000_000,
{
    (chrono::Utc::now() + chrono::Duration::seconds(ttl_secs as i64)).to_rfc3339()
}

/// The statement that looks a user up by name.
pub open spec fn user_query_sql() -> Seq<char> {
    "SELECT id, username, password_hash, token_version FROM users WHERE username = ?"@
}

/// The statement that sets a user's token version.
pub open spec fn version_update_sql() -> Seq<char> {
    "UPDATE users SET token_version = ?, updated_at = datetime('now') WHERE id = ?"@
}

/// The statement that records an issued token.
pub open spec fn token_insert_sql() -> Seq<char> {
    "INSERT INTO tokens (jti, user_id, expires_at) VALUES (?, ?, ?)"@
}

/// The user lookup of a login: its statement and the user name as its parameter.
pub fn user_query(username: &str) -> (r: (String, Vec<DbValue>))
    ensures
        r.0@ == user_query_sql(),
        r.1@.len() == 1,
        r.1@[0] matches DbValue::Text(t) && t@ == username@,
{
    let mut params: Vec<DbValue> = Vec::new();
    params.push(DbValue::text(username));
    (String::from_str("SELECT id, username, password_hash, token_version FROM users WHERE username = ?"), params)
}

/// The token-version update of a login: its statement, and the new version (as the stored
/// signed integer) and the user id as its parameters.
pub fn version_update(user_id: &str, version: u64) -> (r: (String, Vec<DbValue>))
    ensures
        r.0@ == version_update_sql(),
        r.1@.len() == 2,
        r.1@[0] == DbValue::Int(version as i64),
        r.1@[1] matches DbValue::Text(t) && t@ == user_id@,
{
    let mut params: Vec<DbValue> = Vec::new();
    params.push(DbValue::integer(version as i64));
    params.push(DbValue::text(user_id));
    (String::from_str("UPDATE users SET token_version = ?, updated_at = datetime('now') WHERE id = ?"), params)
}

/// The token record of a login: its statement, and the token id, the user id and the
/// expiry time as its parameters.
pub fn token_insert(jti: &str, user_id: &str, expires_at: &str) -> (r: (String, Vec<DbValue>))
    ensures
        r.0@ == token_insert_sql(),
        r.1@.len() == 3,
        r.1@[0] matches DbValue::Text(t) && t@ == jti@,
        r.1@[1] matches DbValue::Text(t) && t@ == user_id@,
        r.1@[2] matches DbValue::Text(t) && t@ == expires_at@,
{
    let mut params: Vec<DbValue> = Vec::new();
    params.push(DbValue::text(jti));
    params.push(DbValue::text(user_id));
    params.push(DbValue::text(expires_at));
    (String::from_str("INSERT INTO tokens (jti, user_id, expires_at) VALUES (?, ?, ?)"), params)
}

/// The user that the rows of the user lookup let in with this password: the first row's id
/// (in decimal) and name, with the token version it is bumped to (the stored one plus one);
/// `None` when there is no row, the row is short or malformed, the password does not match
/// its hash, or the version cannot be bumped.
pub open spec fn login_reading(rows: Seq<Vec<DbValue>>, password: Seq<char>) -> Option<(Seq<char>, Seq<char>, u64)> {
    if rows.len() == 0 || rows[0]@.len() < 4 {
        None
    } else {
        match user_row_reading(rows[0]@) {
            Ok((id, name, hash, v)) =>
                if bcrypt_verdict(password, hash) == Some(true) && v < u64::MAX {
                    Some((id, name, (v + 1) as u64))
                } else {
                    None
                },
            Err(_) => None,
        }
    }
}

/// Decides a login from the rows of the user lookup and the password: `InvalidCredentials`
/// when there is no row or the password does not match the stored hash; an `Internal` error
/// for a row of fewer than four columns, a malformed column (see [`parse_user_row`]) or a
/// version that cannot be bumped; `PasswordHashError` for an unreadable hash. Otherwise the
/// user's id, name and the bumped token version (the stored one plus one).
pub fn login_user(rows: &Vec<Vec<DbValue>>, password: &str) -> (r: Result<(String, String, u64), AuthError>)
    ensures
        rows@.len() == 0 ==> r matches Err(AuthError::InvalidCredentials),
        rows@.len() > 0 && rows@[0]@.len() < 4 ==> (r matches Err(AuthError::Internal(m)) && m@ == "用户记录列数不足"@),
        rows@.len() > 0 && rows@[0]@.len() >= 4 ==> match user_row_reading(rows@[0]@) {
            Err(m) => r matches Err(AuthError::Internal(x)) && x@ == m,
            Ok((id, name, hash, v)) => match bcrypt_verdict(password@, hash) {
                Some(false) => r matches Err(AuthError::InvalidCredentials),
                None => r matches Err(AuthError::PasswordHashError(_)),
                Some(true) => if v == u64::MAX {
                    r matches Err(AuthError::Internal(m)) && m@ == "token_version 溢出"@
                } else {
                    r matches Ok((a, b, c)) && a@ == id && b@ == name && c == v + 1
                },
            },
        },
        match login_reading(rows@, password@) {
            Some((id, name, v)) => r matches Ok((a, b, c)) && a@ == id && b@ == name && c == v,
            None => r is Err,
        },
{
    if rows.len() == 0 {
        return Err(AuthError::InvalidCredentials);
    }
    let row = &rows[0];
    if row.len() < 4 {
        return Err(AuthError::Internal(String::from_str("用户记录列数不足")));
    }
    let (user_id, db_username, password_hash, token_version) = match parse_user_row(row) {
        Ok(t) => t,
        Err(e) => return Err(e),
    };
    match check_password(password, password_hash.as_str()) {
        Ok(()) => {},
        Err(e) => return Err(e),
    }
    if token_version == u64::MAX {
        return Err(AuthError::Internal(String::from_str("token_version 溢出")));
    }
    Ok((user_id, db_username, token_version + 1))
}

/// Logs a user in: looks the user up by name ([`user_query`]), decides on the rows
/// ([`login_user`]: `InvalidCredentials` when there is no such user or the password does
/// not match), sets the user's token version to the bumped one ([`version_update`]; older
/// tokens become stale), reads roles and permissions, issues a token for a day and records
/// it ([`token_insert`]). Database failures are `DatabaseError`s. On success the answer's
/// user is the one the lookup let in, and the token verifies under the service's secret to
/// exactly that user with the bumped version, its roles and permissions, valid for a day.
pub fn login(db: &dyn DatabaseExt, jwt: &JwtService, username: &str, password: &str) -> (r: Result<LoginResponse, AuthError>)
    ensures
        r matches Ok(resp) ==> {
            &&& text_list(resp.user.roles@) == seq!["admin"@]
            &&& hs256_checked(resp.token@, jwt.secret()) matches Ok(p)
                && claims_in_payload(p) matches Some(c)
                && c.0 == resp.user.id@
                && c.1 == resp.user.username@
                && c.2 == text_list(resp.user.roles@)
                && c.3 == text_list(resp.user.permissions@)
                && c.7 == c.6 + LOGIN_TOKEN_TTL_SECS
                && exists|rows: Seq<Vec<DbValue>>|
                    #[trigger] login_reading(rows, password@) == Some((resp.user.id@, resp.user.username@, c.4))
        },
{
    let (sql, params) = user_query(username);
    let rows = match db.query_with(sql.as_str(), params.as_slice()) {
        Ok(rows) => rows,
        Err(e) => return Err(AuthError::DatabaseError(e.text())),
    };
    let (user_id, db_username, new_version) = match login_user(&rows, password) {
        Ok(t) => t,
        Err(e) => return Err(e),
    };
    let (sql, bump) = version_update(user_id.as_str(), new_version);
    match db.execute_with(sql.as_str(), bump.as_slice()) {
        Ok(_) => {},
        Err(e) => return Err(AuthError::DatabaseError(e.text())),
    }
    let roles = match get_user_roles(user_id.as_str()) {
        Ok(v) => v,
        Err(e) => return Err(e),
    };
    let permissions = match get_user_permissions(db, &roles) {
        Ok(v) => v,
        Err(e) => return Err(e),
    };
    let ghost rv = roles@;
    let (token, jti) = match jwt.issue_token(
        user_id.as_str(),
        db_username.as_str(),
        crate::text::clone_texts(&roles),
        crate::text::clone_texts(&permissions),
        new_version,
        LOGIN_TOKEN_TTL_SECS,
    ) {
        Ok(t) => t,
        Err(e) => return Err(e),
    };
    let expires_at = rfc3339_after(LOGIN_TOKEN_TTL_SECS);
    let (sql, rec) = token_insert(jti.as_str(), user_id.as_str(), expires_at.as_str());
    match db.execute_with(sql.as_str(), rec.as_slice()) {
        Ok(_) => {},
        Err(e) => return Err(AuthError::DatabaseError(e.text())),
    }
    proof {
        assert(text_list(rv) =~= seq!["admin"@]);
        assert(login_reading(rows@, password@) == Some((user_id@, db_username@, new_version)));
    }
    Ok(LoginResponse {
        token,
        user: UserInfo { id: user_id, username: db_username, roles, permissions },
        expires_at,
    })
}

/// What base64url decoding (no padding) yields for a text, or `None` when the text is not
/// valid base64url.
pub uninterp spec fn base64_url_decoded(s: Seq<char>) -> Option<Seq<u8>>;

/// `base64::engine::general_purpose::URL_SAFE_NO_PAD.decode`: the decoded bytes, or
/// `None` when the text is not valid unpadded base64url. The result depends on the text
/// alone.
#[verifier::external_body]
fn base64_url_decode(s: &str) -> (r: Option<Vec<u8>>)
    ensures
        match base64_url_decoded(s@) {
            Some(b) => r matches Some(v) && v@ == b,
            None => r is None,
        },
{
    base64::engine::general_purpose::URL_SAFE_NO_PAD.decode(s).ok()
}

/// The text of the string member `key` of the JSON object that `bytes` hold: `None` when
/// the bytes are not JSON, are not an object, or have no such member holding a string.
pub uninterp spec fn json_string_member_of(bytes: Seq<u8>, key: Seq<char>) -> Option<Seq<char>>;

/// `serde_json::from_slice::<serde_json::Value>`, then `Value::get(key)` and `as_str`: the
/// text of the string member `key` of the parsed JSON object, or `None` when the bytes do
/// not parse or hold no such string member. The result depends on the bytes and the key
/// alone.
#[verifier::external_body]
pub(crate) fn json_string_member(bytes: &[u8], key: &str) -> (r: Option<String>)
    ensures
        match json_string_member_of(bytes@, key@) {
            Some(t) => r matches Some(x) && x@ == t,
            None => r is None,
        },
{
    serde_json::from_slice::<serde_json::Value>(bytes).ok().and_then(|v| v.get(key).and_then(|m| m.as_str()).map(|s| s.to_string()))
}

/// The `jti` claim that a token carries, read without verifying its signature: the token
/// must be three dot-separated parts whose middle part is base64url JSON with a string
/// member `jti`.
pub open spec fn unverified_jti(token: Seq<char>) -> Option<Seq<char>> {
    let parts = split_on(token, '.');
    if parts.len() != 3 {
        None
    } else {
        match base64_url_decoded(parts[1]) {
            Some(payload) => json_string_member_of(payload, "jti"@),
            None => None,
        }
    }
}

/// Reads the `jti` claim of a token without verifying its signature: `None` when the
/// token is not three dot-separated parts or its middle part is not base64url; otherwise
/// the `jti` string member of the JSON payload, if there is one.
pub fn parse_jti_without_verify(token: &str) -> (r: Option<String>)
    ensures
        match unverified_jti(token@) {
            Some(t) => r matches Some(x) && x@ == t,
            None => r is None,
        },
{
    let parts = split_text(token, '.');
    if parts.len() != 3 {
        return None;
    }
    let payload = match base64_url_decode(parts[1].as_str()) {
        Some(b) => b,
        None => return None,
    };
    json_string_member(payload.as_slice(), "jti")
}

} // verus!
