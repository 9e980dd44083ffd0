//! The authentication service interface, and the decisions by which it accepts or
//! refuses a token.

use vstd::prelude::*;
use crate::auth::error::AuthError;
use crate::auth::jwt::{JwtClaims, principal_of};
use crate::auth::principal::Principal;
use crate::database::{DatabaseExt, DbValue};
use crate::error::Error;
use crate::auth::jwt::{JwtService, ClaimsView, hs256_checked, claims_in_payload, expired, text_list};
use crate::auth::principal::holds_text;

verus! {

/// The authentication service that plugins reach through their request context: it
/// verifies tokens and revokes them. The host implements it.
pub trait AuthService: Send + Sync {
    /// Verifies a token and returns the user it authenticates.
    fn verify_token(&self, token: &str) -> Result<Principal, AuthError>;

    /// Revokes one token.
    fn revoke_token(&self, jti: &str) -> Result<(), AuthError>;

    /// Revokes every token of a user.
    fn revoke_user_tokens(&self, user_id: &str) -> Result<(), AuthError>;
}

/// Whether rows of the token store say that a token is revoked: the first column of the
/// first row holds something other than NULL.
pub open spec fn rows_say_revoked(rows: Seq<Vec<DbValue>>) -> bool {
    rows.len() > 0 && rows[0]@.len() > 0 && !(rows[0]@[0] is Null)
}

/// Reads the `revoked_at` rows of a token: revoked when the first row's first column is
/// not NULL; not revoked when it is NULL or when there is no such row or column.
pub fn revoked_in_rows(rows: &Vec<Vec<DbValue>>) -> (r: bool)
    ensures
        r == rows_say_revoked(rows@),
{
    if rows.len() == 0 {
        return false;
    }
    let row = &rows[0];
    if row.len() == 0 {
        return false;
    }
    match &row[0] {
        DbValue::Null => false,
        _ => true,
    }
}

/// Reads the `token_version` row of a user: the integer in the first column of the first
/// row (reinterpreted as unsigned), or `UserNotFound` naming the user when there is no
/// such integer.
pub fn token_version_in_rows(rows: &Vec<Vec<DbValue>>, user_id: &str) -> (r: Result<u64, AuthError>)
    ensures
        rows@.len() > 0 && rows@[0]@.len() > 0 && rows@[0]@[0] is Int
            ==> r == Ok::<u64, AuthError>(rows@[0]@[0]->Int_0 as u64),
        !(rows@.len() > 0 && rows@[0]@.len() > 0 && rows@[0]@[0] is Int)
            ==> (r matches Err(AuthError::UserNotFound(u)) && u@ == user_id@),
{
    if rows.len() > 0 && rows[0].len() > 0 {
        match &rows[0][0] {
            DbValue::Int(v) => return Ok(*v as u64),
            _ => {},
        }
    }
    Err(AuthError::UserNotFound(String::from_str(user_id)))
}

/// The last check of token verification: a token whose version differs from the user's
/// current version is revoked; otherwise it authenticates the user its claims describe.
pub fn accept_claims(claims: JwtClaims, current_version: u64) -> (r: Result<Principal, AuthError>)
    ensures
        claims.token_version != current_version ==> r matches Err(AuthError::TokenRevoked),
        claims.token_version == current_version ==> r == Ok::<Principal, AuthError>(principal_of(claims)),
{
    if claims.token_version != current_version {
        return Err(AuthError::TokenRevoked);
    }
    Ok(Principal::from(claims))
}

/// The statement that reads a token's revocation time from the token store.
pub open spec fn revocation_query_sql() -> Seq<char> {
    "SELECT revoked_at FROM tokens WHERE jti = ?"@
}

/// The statement that reads a user's current token version.
pub open spec fn version_query_sql() -> Seq<char> {
    "SELECT token_version FROM users WHERE id = ?"@
}

/// The token-store lookup of a token: its statement and the token id as its parameter.
pub fn revocation_query(jti: &str) -> (r: (String, Vec<DbValue>))
    ensures
        r.0@ == revocation_query_sql(),
        r.1@.len() == 1,
        r.1@[0] matches DbValue::Text(t) && t@ == jti@,
{
    let mut params: Vec<DbValue> = Vec::new();
    params.push(DbValue::text(jti));
    (String::from_str("SELECT revoked_at FROM tokens WHERE jti = ?"), params)
}

/// The version lookup of a user: its statement and the user id as its parameter.
pub fn version_query(user_id: &str) -> (r: (String, Vec<DbValue>))
    ensures
        r.0@ == version_query_sql(),
        r.1@.len() == 1,
        r.1@[0] matches DbValue::Text(t) && t@ == user_id@,
{
    let mut params: Vec<DbValue> = Vec::new();
    params.push(DbValue::text(user_id));
    (String::from_str("SELECT token_version FROM users WHERE id = ?"), params)
}

/// The user's current token version that rows of the version lookup hold: the integer in
/// the first column of the first row, reinterpreted as unsigned.
pub open spec fn stored_version(rows: Seq<Vec<DbValue>>) -> Option<u64> {
    if rows.len() > 0 && rows[0]@.len() > 0 && rows[0]@[0] is Int {
        Some(rows[0]@[0]->Int_0 as u64)
    } else {
        None
    }
}

/// A token with verified claims `c` still stands: its id is not on the in-memory list, the
/// token store's rows do not mark it revoked, and its version is the user's current one.
pub open spec fn token_stands(c: ClaimsView, revoked: Seq<String>, store: Seq<Vec<DbValue>>, users: Seq<Vec<DbValue>>) -> bool {
    &&& !holds_text(revoked, c.5)
    &&& !rows_say_revoked(store)
    &&& stored_version(users) == Some(c.4)
}

/// Revocation is final for the decision: a token on the list, or marked revoked in the
/// token store, never stands; once its user's version has moved on from the token's (a
/// later login or a revoke-all bumps it by one) it never stands; and a token that nothing
/// revokes stands exactly while its version is the user's current one.
pub proof fn lemma_revocation_refuses(c: ClaimsView, revoked: Seq<String>, store: Seq<Vec<DbValue>>, users: Seq<Vec<DbValue>>)
    ensures
        holds_text(revoked, c.5) ==> !token_stands(c, revoked, store, users),
        rows_say_revoked(store) ==> !token_stands(c, revoked, store, users),
        stored_version(users) == Some((c.4 + 1) as u64) && c.4 < u64::MAX ==> !token_stands(c, revoked, store, users),
        !holds_text(revoked, c.5) && !rows_say_revoked(store) ==>
            (token_stands(c, revoked, store, users) <==> stored_version(users) == Some(c.4)),
{
}

/// Decides a token with verified claims from the rows of the token store and of the user's
/// version: `TokenRevoked` when the store marks it revoked; otherwise `UserNotFound` when the
/// user has no version, `TokenRevoked` when the versions differ, and else the user.
pub fn stored_token_decision(claims: JwtClaims, store: &Vec<Vec<DbValue>>, users: &Vec<Vec<DbValue>>) -> (r: Result<Principal, AuthError>)
    ensures
        rows_say_revoked(store@) ==> r matches Err(AuthError::TokenRevoked),
        !rows_say_revoked(store@) ==> match stored_version(users@) {
            None => r matches Err(AuthError::UserNotFound(u)) && u@ == claims.sub@,
            Some(v) => if v == claims.token_version {
                r == Ok::<Principal, AuthError>(principal_of(claims))
            } else {
                r matches Err(AuthError::TokenRevoked)
            },
        },
{
    if revoked_in_rows(store) {
        return Err(AuthError::TokenRevoked);
    }
    let current = match token_version_in_rows(users, claims.sub.as_str()) {
        Ok(v) => v,
        Err(e) => return Err(e),
    };
    accept_claims(claims, current)
}

/// `query`, asked the statement `sql` with the one text parameter `arg`, may answer with
/// the rows `rows`.
pub open spec fn answers_with<Q: Fn(String, Vec<DbValue>) -> Result<Vec<Vec<DbValue>>, Error>>(
    query: Q,
    sql: Seq<char>,
    arg: Seq<char>,
    rows: Seq<Vec<DbValue>>,
) -> bool {
    exists|s: String, p: Vec<DbValue>, v: Vec<Vec<DbValue>>|
        s@ == sql && p@.len() == 1 && (p@[0] matches DbValue::Text(t) && t@ == arg) && v@ == rows
            && #[trigger] call_ensures(query, (s, p), Ok::<Vec<Vec<DbValue>>, Error>(v))
}

/// Verifies a token at time `now`, asking `query` for the rows of the token store and of
/// the user table: its signature, claims and expiry (see [`JwtService::verify_token`],
/// whose error is passed on); then it is refused as revoked when its id is on the in-memory
/// list `revoked`; then the token store is asked by the token's id ([`revocation_query`])
/// and, unless it marks the token revoked (then the second part of the answer is the
/// token's id, to be added to the list), the user table by the token's user
/// ([`version_query`]); the answers are decided by [`stored_token_decision`]. A failed
/// query is a `DatabaseError`.
pub fn check_token_with<Q: Fn(String, Vec<DbValue>) -> Result<Vec<Vec<DbValue>>, Error>>(
    jwt: &JwtService,
    query: Q,
    revoked: &Vec<String>,
    token: &str,
    now: u64,
) -> (r: (Result<Principal, AuthError>, Option<String>))
    requires
        forall|s: String, p: Vec<DbValue>| #[trigger] call_requires(query, (s, p)),
    ensures
        match hs256_checked(token@, jwt.secret()) {
            Err(m) => (r.0 matches Err(AuthError::JwtError(x)) && x@ == m) && r.1 is None,
            Ok(pl) => match claims_in_payload(pl) {
                None => (r.0 matches Err(AuthError::JwtError(x)) && x@ == "JSON error: missing or mistyped claims"@)
                    && r.1 is None,
                Some(c) => if expired(c.7, now) {
                    (r.0 matches Err(AuthError::JwtError(x)) && x@ == "ExpiredSignature"@) && r.1 is None
                } else if holds_text(revoked@, c.5) {
                    r.0 matches Err(AuthError::TokenRevoked) && r.1 is None
                } else {
                    &&& r.0 matches Ok(p) ==> (p.user_id@ == c.0 && p.username@ == c.1
                        && text_list(p.roles@) == c.2 && text_list(p.permissions@) == c.3
                        && p.token_version == c.4 && p.jti@ == c.5
                        && exists|store: Seq<Vec<DbValue>>, users: Seq<Vec<DbValue>>|
                            #![trigger answers_with(query, revocation_query_sql(), c.5, store), answers_with(query, version_query_sql(), c.0, users)]
                            answers_with(query, revocation_query_sql(), c.5, store)
                            && answers_with(query, version_query_sql(), c.0, users)
                            && token_stands(c, revoked@, store, users))
                    &&& r.1 matches Some(j) ==> (j@ == c.5 && (r.0 matches Err(AuthError::TokenRevoked))
                        && exists|store: Seq<Vec<DbValue>>|
                            #[trigger] answers_with(query, revocation_query_sql(), c.5, store) && rows_say_revoked(store))
                    &&& (r.0 matches Err(AuthError::TokenRevoked) && r.1 is None) ==>
                        exists|store: Seq<Vec<DbValue>>, users: Seq<Vec<DbValue>>|
                            #![trigger answers_with(query, revocation_query_sql(), c.5, store), answers_with(query, version_query_sql(), c.0, users)]
                            answers_with(query, revocation_query_sql(), c.5, store) && !rows_say_revoked(store)
                            && answers_with(query, version_query_sql(), c.0, users)
                            && (stored_version(users) matches Some(v) && v != c.4)
                    &&& r.0 matches Err(AuthError::UserNotFound(u)) ==> (u@ == c.0
                        && exists|store: Seq<Vec<DbValue>>, users: Seq<Vec<DbValue>>|
                            #![trigger answers_with(query, revocation_query_sql(), c.5, store), answers_with(query, version_query_sql(), c.0, users)]
                            answers_with(query, revocation_query_sql(), c.5, store) && !rows_say_revoked(store)
                            && answers_with(query, version_query_sql(), c.0, users)
                            && stored_version(users) is None)
                    &&& r.0 matches Err(e) ==> (e is TokenRevoked || e is UserNotFound || e is DatabaseError)
                },
            },
        },
{
    let claims = match jwt.verify_token(token, now) {
        Ok(c) => c,
        Err(e) => return (Err(e), None),
    };
    if crate::text::contains_text(revoked, claims.jti.as_str()) {
        return (Err(AuthError::TokenRevoked), None);
    }
    let ghost cv = claims@;
    let (sql, by_jti) = revocation_query(claims.jti.as_str());
    let ghost sql1 = sql;
    let ghost p1 = by_jti;
    let store = match query(sql, by_jti) {
        Ok(rows) => rows,
        Err(e) => return (Err(AuthError::DatabaseError(e.text())), None),
    };
    proof {
        assert(call_ensures(query, (sql1, p1), Ok::<Vec<Vec<DbValue>>, Error>(store)));
        assert(answers_with(query, revocation_query_sql(), cv.5, store@));
    }
    if revoked_in_rows(&store) {
        let jti = String::from_str(claims.jti.as_str());
        return (Err(AuthError::TokenRevoked), Some(jti));
    }
    let (sql, by_user) = version_query(claims.sub.as_str());
    let ghost sql2 = sql;
    let ghost p2 = by_user;
    let users = match query(sql, by_user) {
        Ok(rows) => rows,
        Err(e) => return (Err(AuthError::DatabaseError(e.text())), None),
    };
    proof {
        assert(call_ensures(query, (sql2, p2), Ok::<Vec<Vec<DbValue>>, Error>(users)));
        assert(answers_with(query, version_query_sql(), cv.0, users@));
    }
    let r = stored_token_decision(claims, &store, &users);
    proof {
        if r is Ok {
            assert(token_stands(cv, revoked@, store@, users@));
        }
    }
    (r, None)
}

/// Verifies a token for the host's authentication service at time `now`, asking `db` for
/// the token store and the user table (see [`check_token_with`]): its signature, claims and
/// expiry; the in-memory revocation list `revoked`; the token store (when it marks the token
/// revoked, the second part of the answer is the token's id, to be added to the list); and
/// the user's current version. Database failures are `DatabaseError`s. An accepted token
/// stands (see [`token_stands`]) and yields the user that its verified claims describe.
pub fn check_token(jwt: &JwtService, db: &dyn DatabaseExt, revoked: &Vec<String>, token: &str, now: u64)
    -> (r: (Result<Principal, AuthError>, Option<String>))
    ensures
        match hs256_checked(token@, jwt.secret()) {
            Err(m) => (r.0 matches Err(AuthError::JwtError(x)) && x@ == m) && r.1 is None,
            Ok(pl) => match claims_in_payload(pl) {
                None => (r.0 matches Err(AuthError::JwtError(x)) && x@ == "JSON error: missing or mistyped claims"@)
                    && r.1 is None,
                Some(c) => if expired(c.7, now) {
                    (r.0 matches Err(AuthError::JwtError(x)) && x@ == "ExpiredSignature"@) && r.1 is None
                } else if holds_text(revoked@, c.5) {
                    r.0 matches Err(AuthError::TokenRevoked) && r.1 is None
                } else {
                    &&& r.0 matches Ok(p) ==> (p.user_id@ == c.0 && p.username@ == c.1
                        && text_list(p.roles@) == c.2 && text_list(p.permissions@) == c.3
                        && p.token_version == c.4 && p.jti@ == c.5
                        && exists|store: Seq<Vec<DbValue>>, users: Seq<Vec<DbValue>>|
                            #[trigger] token_stands(c, revoked@, store, users))
                    &&& r.1 matches Some(j) ==> (j@ == c.5 && (r.0 matches Err(AuthError::TokenRevoked))
                        && exists|store: Seq<Vec<DbValue>>| #[trigger] rows_say_revoked(store))
                    &&& r.0 matches Err(AuthError::UserNotFound(u)) ==> u@ == c.0
                    &&& r.0 matches Err(e) ==> (e is TokenRevoked || e is UserNotFound || e is DatabaseError)
                },
            },
        },
{
    let query = |s: String, p: Vec<DbValue>| -> (a: Result<Vec<Vec<DbValue>>, Error>) {
        db.query_with(s.as_str(), p.as_slice())
    };
    check_token_with(jwt, query, revoked, token, now)
}

/// The statement that marks one token revoked in the token store.
pub open spec fn token_revoke_sql() -> Seq<char> {
    "UPDATE tokens SET revoked_at = datetime('now') WHERE jti = ?"@
}

/// The statement that bumps a user's token version (every older token goes stale).
pub open spec fn version_bump_sql() -> Seq<char> {
    "UPDATE users SET token_version = token_version + 1, updated_at = datetime('now') WHERE id = ?"@
}

/// The statement that marks every live token of a user revoked in the token store.
pub open spec fn user_tokens_revoke_sql() -> Seq<char> {
    "UPDATE tokens SET revoked_at = datetime('now') WHERE user_id = ? AND revoked_at IS NULL"@
}

/// A statement with the one text parameter `arg`.
fn one_text_statement(sql: &str, arg: &str) -> (r: (String, Vec<DbValue>))
    ensures
        r.0@ == sql@,
        r.1@.len() == 1,
        r.1@[0] matches DbValue::Text(t) && t@ == arg@,
{
    let mut params: Vec<DbValue> = Vec::new();
    params.push(DbValue::text(arg));
    (String::from_str(sql), params)
}

/// The revocation of one token in the token store: its statement and the token id.
pub fn token_revoke(jti: &str) -> (r: (String, Vec<DbValue>))
    ensures
        r.0@ == token_revoke_sql(),
        r.1@.len() == 1,
        r.1@[0] matches DbValue::Text(t) && t@ == jti@,
{
    one_text_statement("UPDATE tokens SET revoked_at = datetime('now') WHERE jti = ?", jti)
}

/// The version bump of a user: its statement and the user id.
pub fn version_bump(user_id: &str) -> (r: (String, Vec<DbValue>))
    ensures
        r.0@ == version_bump_sql(),
        r.1@.len() == 1,
        r.1@[0] matches DbValue::Text(t) && t@ == user_id@,
{
    one_text_statement("UPDATE users SET token_version = token_version + 1, updated_at = datetime('now') WHERE id = ?", user_id)
}

/// The revocation of a user's live tokens: its statement and the user id.
pub fn user_tokens_revoke(user_id: &str) -> (r: (String, Vec<DbValue>))
    ensures
        r.0@ == user_tokens_revoke_sql(),
        r.1@.len() == 1,
        r.1@[0] matches DbValue::Text(t) && t@ == user_id@,
{
    one_text_statement("UPDATE tokens SET revoked_at = datetime('now') WHERE user_id = ? AND revoked_at IS NULL", user_id)
}

/// Marks one token revoked in the token store ([`token_revoke`]); a database failure is a
/// `DatabaseError` with its text.
pub fn revoke_in_store(db: &dyn DatabaseExt, jti: &str) -> (r: Result<(), AuthError>)
    ensures
        r matches Err(e) ==> e is DatabaseError,
{
    let (sql, params) = token_revoke(jti);
    match db.execute_with(sql.as_str(), params.as_slice()) {
        Ok(_) => Ok(()),
        Err(e) => Err(AuthError::DatabaseError(e.text())),
    }
}

/// Revokes every token of a user: bumps the user's token version ([`version_bump`]; every
/// older token goes stale), then marks the user's live tokens revoked
/// ([`user_tokens_revoke`]); a database failure stops there and is a `DatabaseError`.
pub fn revoke_user_in_store(db: &dyn DatabaseExt, user_id: &str) -> (r: Result<(), AuthError>)
    ensures
        r matches Err(e) ==> e is DatabaseError,
{
    let (sql, params) = version_bump(user_id);
    match db.execute_with(sql.as_str(), params.as_slice()) {
        Ok(_) => {},
        Err(e) => return Err(AuthError::DatabaseError(e.text())),
    }
    let (sql, params) = user_tokens_revoke(user_id);
    match db.execute_with(sql.as_str(), params.as_slice()) {
        Ok(_) => Ok(()),
        Err(e) => Err(AuthError::DatabaseError(e.text())),
    }
}

} // verus!
