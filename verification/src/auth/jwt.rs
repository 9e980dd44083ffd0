//! The claims carried by a token, and the user they describe.

use vstd::prelude::*;
use rand::Rng;
use jsonwebtoken::{encode, Algorithm, DecodingKey, EncodingKey, Header, Validation};
use crate::auth::error::AuthError;
use crate::auth::principal::Principal;
use crate::auth::routes::{json_string_member, json_string_member_of};

verus! {

/// The claims of a token.
#[derive(Debug)]
pub struct JwtClaims {
    /// User id.
    pub sub: String,
    /// User name.
    pub username: String,
    /// Roles.
    pub roles: Vec<String>,
    /// Permissions.
    pub permissions: Vec<String>,
    /// Token version.
    pub token_version: u64,
    /// Unique id of the token.
    pub jti: String,
    /// Issued at (Unix seconds).
    pub iat: u64,
    /// Expires at (Unix seconds).
    pub exp: u64,
}

/// The claims as plain values: (sub, username, roles, permissions, token_version, jti,
/// iat, exp).
pub type ClaimsView = (Seq<char>, Seq<char>, Seq<Seq<char>>, Seq<Seq<char>>, u64, Seq<char>, u64, u64);

/// The texts of a list of strings.
pub open spec fn text_list(v: Seq<String>) -> Seq<Seq<char>> {
    v.map_values(|s: String| s@)
}

impl View for JwtClaims {
    type V = ClaimsView;

    open spec fn view(&self) -> ClaimsView {
        (self.sub@, self.username@, text_list(self.roles@), text_list(self.permissions@),
            self.token_version, self.jti@, self.iat, self.exp)
    }
}

/// The user that a token's claims describe.
pub open spec fn principal_of(c: JwtClaims) -> Principal {
    Principal {
        user_id: c.sub,
        username: c.username,
        roles: c.roles,
        permissions: c.permissions,
        jti: c.jti,
        token_version: c.token_version,
    }
}

impl From<JwtClaims> for Principal {
    fn from(claims: JwtClaims) -> (r: Self) {
        Principal {
            user_id: claims.sub,
            username: claims.username,
            roles: claims.roles,
            permissions: claims.permissions,
            jti: claims.jti,
            token_version: claims.token_version,
        }
    }
}

impl vstd::std_specs::convert::FromSpecImpl<JwtClaims> for Principal {
    open spec fn obeys_from_spec() -> bool {
        true
    }

    open spec fn from_spec(c: JwtClaims) -> Principal {
        principal_of(c)
    }
}

impl JwtClaims {
    /// The claims of a token issued at `now` for `ttl_secs` seconds, with the given id.
    pub fn issued(
        user_id: &str,
        username: &str,
        roles: Vec<String>,
        permissions: Vec<String>,
        token_version: u64,
        jti: &str,
        now: u64,
        ttl_secs: u64,
    ) -> (r: JwtClaims)
        requires
            now + ttl_secs <= u64::MAX,
        ensures
            r.sub@ == user_id@,
            r.username@ == username@,
            r.roles == roles,
            r.permissions == permissions,
            r.token_version == token_version,
            r.jti@ == jti@,
            r.iat == now,
            r.exp == now + ttl_secs,
    {
        JwtClaims {
            sub: String::from_str(user_id),
            username: String::from_str(username),
            roles,
            permissions,
            token_version,
            jti: String::from_str(jti),
            iat: now,
            exp: now + ttl_secs,
        }
    }
}

/// The unsigned integer member `key` of the JSON object that `bytes` hold, if it has one.
pub uninterp spec fn json_u64_member_of(bytes: Seq<u8>, key: Seq<char>) -> Option<u64>;

/// `serde_json::from_slice::<serde_json::Value>`, then `Value::get(key)` and `as_u64`: the
/// member `key` of the parsed JSON object when it is an integer that fits in `u64`; a
/// function of the bytes and the key alone.
#[verifier::external_body]
fn json_u64_member(bytes: &[u8], key: &str) -> (r: Option<u64>)
    ensures
        r == json_u64_member_of(bytes@, key@),
{
    serde_json::from_slice::<serde_json::Value>(bytes).ok().and_then(|v| v.get(key).and_then(|m| m.as_u64()))
}

/// The member `key` of the JSON object that `bytes` hold when it is an array of strings.
pub uninterp spec fn json_string_list_member_of(bytes: Seq<u8>, key: Seq<char>) -> Option<Seq<Seq<char>>>;

/// `serde_json::from_slice::<serde_json::Value>`, then `Value::get(key)`, `as_array` and
/// `as_str` on each element: the texts of the member `key` when it is an array of strings;
/// a function of the bytes and the key alone.
#[verifier::external_body]
fn json_string_list_member(bytes: &[u8], key: &str) -> (r: Option<Vec<String>>)
    ensures
        match json_string_list_member_of(bytes@, key@) {
            Some(l) => r matches Some(v) && text_list(v@) == l,
            None => r is None,
        },
{
    let v = serde_json::from_slice::<serde_json::Value>(bytes).ok()?;
    v.get(key)?.as_array()?.iter().map(|x| x.as_str().map(|s| s.to_string())).collect()
}

/// The claims that a token payload (JSON bytes) carries, when every claim is present with
/// its type.
pub open spec fn claims_in_payload(p: Seq<u8>) -> Option<ClaimsView> {
    match (json_string_member_of(p, "sub"@), json_string_member_of(p, "username"@),
        json_string_list_member_of(p, "roles"@), json_string_list_member_of(p, "permissions"@),
        json_u64_member_of(p, "token_version"@), json_string_member_of(p, "jti"@),
        json_u64_member_of(p, "iat"@), json_u64_member_of(p, "exp"@)) {
        (Some(a), Some(b), Some(c), Some(d), Some(e), Some(f), Some(g), Some(h)) =>
            Some((a, b, c, d, e, f, g, h)),
        _ => None,
    }
}

/// Reads the claims of a token payload (JSON bytes): `None` when a claim is missing or
/// does not have its type.
pub fn claims_from_payload(p: &[u8]) -> (r: Option<JwtClaims>)
    ensures
        match claims_in_payload(p@) {
            Some(c) => r matches Some(k) && k@ == c,
            None => r is None,
        },
{
    let sub = match json_string_member(p, "sub") { Some(x) => x, None => return None };
    let username = match json_string_member(p, "username") { Some(x) => x, None => return None };
    let roles = match json_string_list_member(p, "roles") { Some(x) => x, None => return None };
    let permissions = match json_string_list_member(p, "permissions") { Some(x) => x, None => return None };
    let token_version = match json_u64_member(p, "token_version") { Some(x) => x, None => return None };
    let jti = match json_string_member(p, "jti") { Some(x) => x, None => return None };
    let iat = match json_u64_member(p, "iat") { Some(x) => x, None => return None };
    let exp = match json_u64_member(p, "exp") { Some(x) => x, None => return None };
    Some(JwtClaims { sub, username, roles, permissions, token_version, jti, iat, exp })
}

/// What checking a token's HS256 signature with a secret gives: the token's payload (its
/// claims as JSON bytes), or the text of the error when the token is malformed or its
/// signature does not match.
pub uninterp spec fn hs256_checked(token: Seq<char>, secret: Seq<u8>) -> Result<Seq<u8>, Seq<char>>;

/// `jsonwebtoken::decode::<serde_json::Value>` with the HS256 key of `secret` and no time
/// or claim validation, the claims written back as JSON bytes; on failure, the error's text.
/// A function of the token and the secret alone.
#[verifier::external_body]
fn hs256_verify(token: &str, secret: &[u8]) -> (r: Result<Vec<u8>, String>)
    ensures
        match hs256_checked(token@, secret@) {
            Ok(p) => r matches Ok(v) && v@ == p,
            Err(m) => r matches Err(x) && x@ == m,
        },
{
    let mut v = Validation::new(Algorithm::HS256);
    v.validate_exp = false;
    v.required_spec_claims.clear();
    let key = DecodingKey::from_secret(secret);
    let d = jsonwebtoken::decode::<serde_json::Value>(token, &key, &v).map_err(|e| e.to_string())?;
    Ok(serde_json::to_vec(&d.claims).unwrap_or_default())
}

/// The token that signing claims with a secret (HS256, default header) gives, or `None`
/// when signing fails.
pub uninterp spec fn hs256_token(claims: ClaimsView, secret: Seq<u8>) -> Option<Seq<char>>;

/// `jsonwebtoken::encode` of the claims, as a JSON object with one member per claim, under
/// the default header (HS256) and the key of `secret`. A function of the claims and the
/// secret alone; a token that it makes passes the signature check with the same secret, and
/// its payload carries exactly those claims.
#[verifier::external_body]
fn hs256_sign(claims: &JwtClaims, secret: &[u8]) -> (r: Option<String>)
    ensures
        match hs256_token(claims@, secret@) {
            Some(t) => r matches Some(x) && x@ == t,
            None => r is None,
        },
        r matches Some(t) ==> (hs256_checked(t@, secret@) matches Ok(p) && claims_in_payload(p) == Some(claims@)),
{
    let mut m = serde_json::Map::new();
    m.insert("sub".to_string(), claims.sub.clone().into());
    m.insert("username".to_string(), claims.username.clone().into());
    m.insert("roles".to_string(), claims.roles.clone().into());
    m.insert("permissions".to_string(), claims.permissions.clone().into());
    m.insert("token_version".to_string(), claims.token_version.into());
    m.insert("jti".to_string(), claims.jti.clone().into());
    m.insert("iat".to_string(), claims.iat.into());
    m.insert("exp".to_string(), claims.exp.into());
    encode(&Header::default(), &m, &EncodingKey::from_secret(secret)).ok()
}

/// 32 bytes from `rand`'s thread-local generator. Nothing is stated of their values.
#[verifier::external_body]
fn random_secret() -> (r: Vec<u8>)
    ensures
        r@.len() == 32,
{
    let mut secret = [0u8; 32];
    rand::thread_rng().fill(&mut secret);
    secret.to_vec()
}

/// `chrono::Utc::now().timestamp()` as unsigned seconds. Nothing is stated of it.
#[verifier::external_body]
fn unix_now() -> u64 {
    chrono::Utc::now().timestamp() as u64
}

/// `n` is a time that the clock can read (a possible result of [`unix_now`]).
pub closed spec fn clock_reading(n: u64) -> bool {
    call_ensures(unix_now, (), n)
}

/// `id` is a token id that the id generator can give (a possible result of
/// [`new_token_id`]).
pub closed spec fn fresh_token_id(id: String) -> bool {
    call_ensures(new_token_id, (), id)
}

/// `uuid::Uuid::new_v4().to_string()`: a fresh random token id. Nothing is stated of it.
#[verifier::external_body]
fn new_token_id() -> String {
    uuid::Uuid::new_v4().to_string()
}

/// The seconds of grace after a token's expiry time during which it is still accepted.
pub const EXPIRY_LEEWAY_SECS: u64 = 60;

/// A token with this expiry time is refused at time `now` (Unix seconds).
pub open spec fn expired(exp: u64, now: u64) -> bool {
    exp + EXPIRY_LEEWAY_SECS < now
}

/// The claims of a token issued at `now` for `ttl_secs` seconds.
pub open spec fn issued_claims(
    user_id: Seq<char>, username: Seq<char>, roles: Seq<String>, permissions: Seq<String>,
    token_version: u64, jti: Seq<char>, now: u64, ttl_secs: u64,
) -> ClaimsView {
    (user_id, username, text_list(roles), text_list(permissions), token_version, jti, now, (now + ttl_secs) as u64)
}

/// A token issued at `now` for `ttl_secs` seconds is accepted at every time up to its
/// expiry plus the leeway, and refused at every later time: its lifetime is exactly
/// `ttl_secs` seconds from the issue time (plus the leeway), whatever the claims.
pub proof fn lemma_issued_lifetime(
    user_id: Seq<char>, username: Seq<char>, roles: Seq<String>, permissions: Seq<String>,
    token_version: u64, jti: Seq<char>, now: u64, ttl_secs: u64, t: u64,
)
    requires
        now + ttl_secs <= u64::MAX,
    ensures
        issued_claims(user_id, username, roles, permissions, token_version, jti, now, ttl_secs).6 == now,
        issued_claims(user_id, username, roles, permissions, token_version, jti, now, ttl_secs).7 == now + ttl_secs,
        t <= now + ttl_secs + EXPIRY_LEEWAY_SECS
            <==> !expired(issued_claims(user_id, username, roles, permissions, token_version, jti, now, ttl_secs).7, t),
{
}

/// Issues and verifies HS256 tokens signed with one secret.
#[derive(Clone)]
pub struct JwtService {
    secret: Vec<u8>,
}

impl JwtService {
    /// The signing secret.
    pub closed spec fn secret(&self) -> Seq<u8> {
        self.secret@
    }

    /// A service with a random 32-byte secret.
    pub fn new() -> (r: Self)
        ensures
            r.secret().len() == 32,
    {
        JwtService { secret: random_secret() }
    }

    /// A service with the given secret.
    pub fn from_secret(secret: &[u8]) -> (r: Self)
        ensures
            r.secret() == secret@,
    {
        let mut v: Vec<u8> = Vec::new();
        let mut i: usize = 0;
        while i < secret.len()
            invariant
                i <= secret@.len(),
                v@ == secret@.take(i as int),
            decreases secret@.len() - i,
        {
            v.push(secret[i]);
            i = i + 1;
            assert(v@ =~= secret@.take(i as int));
        }
        assert(secret@.take(secret@.len() as int) =~= secret@);
        JwtService { secret: v }
    }

    /// Issues a token for a user, valid from now for `ttl_secs` seconds under a fresh id;
    /// returns the token and its id. The token carries exactly the claims issued and passes
    /// this service's signature check. A `JwtError` when the expiry time would overflow or
    /// signing fails.
    pub fn issue_token(
        &self,
        user_id: &str,
        username: &str,
        roles: Vec<String>,
        permissions: Vec<String>,
        token_version: u64,
        ttl_secs: u64,
    ) -> (r: Result<(String, String), AuthError>)
        ensures
            match r {
                Ok((t, jti)) => fresh_token_id(jti) && exists|now: u64| {
                    &&& clock_reading(now)
                    &&& now + ttl_secs <= u64::MAX
                    &&& #[trigger] hs256_token(issued_claims(user_id@, username@, roles@, permissions@, token_version, jti@, now, ttl_secs), self.secret()) == Some(t@)
                    &&& hs256_checked(t@, self.secret()) matches Ok(p)
                        && claims_in_payload(p) == Some(issued_claims(user_id@, username@, roles@, permissions@, token_version, jti@, now, ttl_secs))
                },
                Err(e) => e matches AuthError::JwtError(m) && (
                    m@ == "token expiry time overflows"@ && ttl_secs > 0
                        && (exists|now: u64| #[trigger] clock_reading(now) && now + ttl_secs > u64::MAX)
                    || m@ == "token signing failed"@ && exists|now: u64, id: Seq<char>| now + ttl_secs <= u64::MAX
                        && #[trigger] hs256_token(issued_claims(user_id@, username@, roles@, permissions@, token_version, id, now, ttl_secs), self.secret()) is None),
            },
    {
        let now = unix_now();
        let jti = new_token_id();
        if now > u64::MAX - ttl_secs {
            assert(clock_reading(now));
            return Err(AuthError::JwtError(String::from_str("token expiry time overflows")));
        }
        let ghost roles0 = roles@;
        let ghost permissions0 = permissions@;
        let claims = JwtClaims::issued(user_id, username, roles, permissions, token_version, jti.as_str(), now, ttl_secs);
        assert(claims@ == issued_claims(user_id@, username@, roles0, permissions0, token_version, jti@, now, ttl_secs));
        match hs256_sign(&claims, self.secret.as_slice()) {
            Some(t) => {
                assert(hs256_token(issued_claims(user_id@, username@, roles0, permissions0, token_version, jti@, now, ttl_secs), self.secret()) == Some(t@));
                let res: Result<(String, String), AuthError> = Ok((t, jti));
                assert(match res {
                    Ok((t1, j1)) => fresh_token_id(j1) && exists|n: u64| {
                        &&& clock_reading(n)
                        &&& n + ttl_secs <= u64::MAX
                        &&& #[trigger] hs256_token(issued_claims(user_id@, username@, roles0, permissions0, token_version, j1@, n, ttl_secs), self.secret()) == Some(t1@)
                        &&& hs256_checked(t1@, self.secret()) matches Ok(p)
                            && claims_in_payload(p) == Some(issued_claims(user_id@, username@, roles0, permissions0, token_version, j1@, n, ttl_secs))
                    },
                    Err(e) => true,
                });
                res
            },
            None => {
                assert(hs256_token(issued_claims(user_id@, username@, roles0, permissions0, token_version, jti@, now, ttl_secs), self.secret()) is None);
                Err(AuthError::JwtError(String::from_str("token signing failed")))
            },
        }
    }

    /// Verifies a token at time `now` (Unix seconds): its HS256 signature must match this
    /// service's secret, its payload must carry every claim with its type, and it must not
    /// have expired more than [`EXPIRY_LEEWAY_SECS`] seconds before `now`. Returns its claims,
    /// or a `JwtError` with the text of the failed check ("ExpiredSignature" for an expired
    /// token).
    pub fn verify_token(&self, token: &str, now: u64) -> (r: Result<JwtClaims, AuthError>)
        ensures
            match hs256_checked(token@, self.secret()) {
                Err(m) => r matches Err(AuthError::JwtError(x)) && x@ == m,
                Ok(p) => match claims_in_payload(p) {
                    None => r matches Err(AuthError::JwtError(x)) && x@ == "JSON error: missing or mistyped claims"@,
                    Some(c) => if expired(c.7, now) {
                        r matches Err(AuthError::JwtError(x)) && x@ == "ExpiredSignature"@
                    } else {
                        r matches Ok(k) && k@ == c
                    },
                },
            },
    {
        let p = match hs256_verify(token, self.secret.as_slice()) {
            Ok(p) => p,
            Err(m) => return Err(AuthError::JwtError(m)),
        };
        let c = match claims_from_payload(p.as_slice()) {
            Some(c) => c,
            None => return Err(AuthError::JwtError(String::from_str("JSON error: missing or mistyped claims"))),
        };
        if c.exp < now && now - c.exp > EXPIRY_LEEWAY_SECS {
            return Err(AuthError::JwtError(String::from_str("ExpiredSignature")));
        }
        Ok(c)
    }
}

} // verus!
