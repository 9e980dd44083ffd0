use base64::Engine;
use plugkit::auth::error::{auth_error_response, AuthError};
use plugkit::auth::jwt::{claims_from_payload, JwtClaims, JwtService};
use plugkit::auth::middleware::{admit_request, authorize, extract_token};
use plugkit::auth::principal::Principal;
use plugkit::auth::routes::{
    login_user, token_insert, user_query, version_update,
    check_password, get_user_roles, parse_jti_without_verify, parse_user_row, permissions_from_rows,
    permissions_query,
};
use plugkit::auth::service::{
    accept_claims, check_token, revocation_query, revoke_in_store, revoke_user_in_store, token_revoke, user_tokens_revoke, version_bump, revoked_in_rows, stored_token_decision, token_version_in_rows, version_query,
};
use plugkit::database::DbValue;
use plugkit::plugin::AuthRequirement;

fn user(perms: &[&str]) -> Principal {
    Principal {
        user_id: "1".into(),
        username: "admin".into(),
        roles: vec!["admin".into()],
        permissions: perms.iter().map(|s| s.to_string()).collect(),
        jti: "j".into(),
        token_version: 3,
    }
}

fn claims(version: u64) -> JwtClaims {
    JwtClaims::issued("7", "alice", vec!["admin".into()], vec!["read".into()], version, "jti-1", 1000, 60)
}

#[test]
fn principal_permissions_and_roles() {
    let p = user(&["admin:access", "read"]);
    assert!(p.has_permission("read"));
    assert!(!p.has_permission("write"));
    assert!(p.has_role("admin"));
    assert!(!p.has_role("guest"));
}

#[test]
fn public_routes_admit_everyone() {
    assert!(authorize(&AuthRequirement::Public, &None).is_ok());
    assert!(authorize(&AuthRequirement::Public, &Some(user(&[]))).is_ok());
}

#[test]
fn authenticated_routes_need_a_user() {
    let e = authorize(&AuthRequirement::Authenticated, &None).unwrap_err();
    assert_eq!(e.status, 401);
    assert_eq!(e.error, "unauthorized");
    assert_eq!(e.message, "需要登录");
    assert!(e.required.is_none());
    assert!(authorize(&AuthRequirement::Authenticated, &Some(user(&[]))).is_ok());
}

#[test]
fn permission_routes_need_the_permission() {
    let req = AuthRequirement::Permission("admin:access");
    assert!(authorize(&req, &Some(user(&["admin:access"]))).is_ok());
    let e = authorize(&req, &Some(user(&["read"]))).unwrap_err();
    assert_eq!(e.status, 403);
    assert_eq!(e.error, "forbidden");
    assert_eq!(e.message, "权限不足");
    assert_eq!(e.required.as_deref(), Some("admin:access"));
    let e = authorize(&req, &None).unwrap_err();
    assert_eq!(e.status, 401);
    assert_eq!(e.required.as_deref(), Some("admin:access"));
}

#[test]
fn bearer_tokens_are_extracted() {
    assert_eq!(extract_token(Some("Bearer abc.def")).as_deref(), Some("abc.def"));
    assert_eq!(extract_token(Some("Bearer ")).as_deref(), Some(""));
    assert!(extract_token(Some("Basic abc")).is_none());
    assert!(extract_token(Some("bearer abc")).is_none());
    assert!(extract_token(None).is_none());
}

#[test]
fn auth_errors_map_to_answers() {
    let cases: Vec<(AuthError, u16, &str, &str)> = vec![
        (AuthError::InvalidToken("bad".into()), 401, "invalid_token", "bad"),
        (AuthError::TokenRevoked, 401, "token_revoked", "Token 已被撤销"),
        (AuthError::InvalidCredentials, 401, "invalid_credentials", "用户名或密码错误"),
        (AuthError::Forbidden("no".into()), 403, "forbidden", "no"),
        (AuthError::UserNotFound("u".into()), 401, "user_not_found", "u"),
        (AuthError::DatabaseError("db".into()), 500, "database_error", "db"),
        (AuthError::PasswordHashError("h".into()), 500, "password_hash_error", "h"),
        (AuthError::JwtError("j".into()), 401, "jwt_error", "j"),
        (AuthError::Internal("i".into()), 500, "internal_error", "i"),
    ];
    for (e, status, code, message) in cases {
        let r = auth_error_response(&e);
        assert_eq!(r.status, status);
        assert_eq!(r.error, code);
        assert_eq!(r.message, message);
    }
}

#[test]
fn auth_error_texts() {
    assert_eq!(AuthError::InvalidToken("未认证".into()).text(), "Token 无效: 未认证");
    assert_eq!(AuthError::TokenRevoked.text(), "Token 已被撤销");
    assert_eq!(AuthError::Internal("锁失败".into()).text(), "内部错误: 锁失败");
    assert_eq!(AuthError::JwtError("x".into()).text(), "JWT 错误: x");
}

#[test]
fn claims_become_the_principal() {
    let c = claims(5);
    assert_eq!(c.exp, 1060);
    assert_eq!(c.iat, 1000);
    let p = Principal::from(c);
    assert_eq!(p.user_id, "7");
    assert_eq!(p.username, "alice");
    assert_eq!(p.jti, "jti-1");
    assert_eq!(p.token_version, 5);
    assert_eq!(p.permissions, vec!["read".to_string()]);
}

#[test]
fn stale_token_versions_are_revoked() {
    assert!(matches!(accept_claims(claims(5), 6), Err(AuthError::TokenRevoked)));
    let p = accept_claims(claims(6), 6).unwrap();
    assert_eq!(p.token_version, 6);
}

#[test]
fn revocation_rows_are_read() {
    assert!(!revoked_in_rows(&vec![]));
    assert!(!revoked_in_rows(&vec![vec![DbValue::Null]]));
    assert!(revoked_in_rows(&vec![vec![DbValue::text("2024-01-01")]]));
    assert!(!revoked_in_rows(&vec![vec![]]));
}

#[test]
fn token_versions_are_read() {
    assert_eq!(token_version_in_rows(&vec![vec![DbValue::integer(4)]], "1").unwrap(), 4);
    assert_eq!(token_version_in_rows(&vec![vec![DbValue::integer(-1)]], "1").unwrap(), u64::MAX);
    match token_version_in_rows(&vec![], "9") {
        Err(AuthError::UserNotFound(u)) => assert_eq!(u, "9"),
        _ => panic!("expected UserNotFound"),
    }
    assert!(matches!(token_version_in_rows(&vec![vec![DbValue::text("x")]], "9"), Err(AuthError::UserNotFound(_))));
}

#[test]
fn user_rows_are_read() {
    let row = vec![DbValue::integer(42), DbValue::text("admin"), DbValue::text("$2b$hash"), DbValue::integer(3)];
    let (id, name, hash, version) = parse_user_row(&row).unwrap();
    assert_eq!(id, "42");
    assert_eq!(name, "admin");
    assert_eq!(hash, "$2b$hash");
    assert_eq!(version, 3);
    let neg = vec![DbValue::integer(-5), DbValue::text("a"), DbValue::text("h"), DbValue::integer(0)];
    assert_eq!(parse_user_row(&neg).unwrap().0, "-5");
    let bad = vec![DbValue::text("42"), DbValue::text("admin"), DbValue::text("h"), DbValue::integer(3)];
    match parse_user_row(&bad) {
        Err(AuthError::Internal(m)) => assert_eq!(m, "用户 ID 格式错误"),
        _ => panic!("expected Internal"),
    }
    let bad = vec![DbValue::integer(1), DbValue::text("admin"), DbValue::text("h"), DbValue::Null];
    match parse_user_row(&bad) {
        Err(AuthError::Internal(m)) => assert_eq!(m, "token_version 格式错误"),
        _ => panic!("expected Internal"),
    }
}

#[test]
fn passwords_are_checked_with_bcrypt() {
    let hash = bcrypt::hash("secret", 4).unwrap();
    assert!(check_password("secret", &hash).is_ok());
    assert!(matches!(check_password("wrong", &hash), Err(AuthError::InvalidCredentials)));
    assert!(matches!(check_password("secret", "not a hash"), Err(AuthError::PasswordHashError(_))));
}

#[test]
fn every_user_is_admin() {
    assert_eq!(get_user_roles("1").unwrap(), vec!["admin".to_string()]);
}

#[test]
fn permission_query_has_one_placeholder_per_role() {
    let (sql, params) = permissions_query(&vec!["admin".into(), "editor".into()]);
    assert_eq!(sql, "SELECT DISTINCT permission FROM role_permissions WHERE role IN (?,?)");
    assert_eq!(params.len(), 2);
    assert!(matches!(&params[1], DbValue::Text(t) if t == "editor"));
    let (sql, _) = permissions_query(&vec!["admin".into()]);
    assert_eq!(sql, "SELECT DISTINCT permission FROM role_permissions WHERE role IN (?)");
}

#[test]
fn permission_rows_keep_text_first_columns() {
    let rows = vec![
        vec![DbValue::text("read")],
        vec![DbValue::integer(1)],
        vec![],
        vec![DbValue::text("write"), DbValue::integer(2)],
    ];
    assert_eq!(permissions_from_rows(&rows), vec!["read".to_string(), "write".to_string()]);
}

#[test]
fn token_ids_are_read_without_verifying() {
    let payload = base64::engine::general_purpose::URL_SAFE_NO_PAD.encode(br#"{"jti":"abc-123","sub":"1"}"#);
    let token = format!("header.{}.signature", payload);
    assert_eq!(parse_jti_without_verify(&token).as_deref(), Some("abc-123"));
    assert!(parse_jti_without_verify("only.two").is_none());
    assert!(parse_jti_without_verify("a.b.c.d").is_none());
    assert!(parse_jti_without_verify("h.!!!.s").is_none());
    let no_jti = base64::engine::general_purpose::URL_SAFE_NO_PAD.encode(br#"{"sub":"1"}"#);
    assert!(parse_jti_without_verify(&format!("h.{}.s", no_jti)).is_none());
}

#[test]
fn issued_tokens_verify_to_their_claims() {
    let jwt = JwtService::from_secret(b"0123456789abcdef0123456789abcdef");
    let (token, jti) = jwt
        .issue_token("7", "alice", vec!["admin".into()], vec!["read".into(), "write".into()], 4, 3600)
        .unwrap();
    assert_eq!(token.split('.').count(), 3);
    assert_eq!(parse_jti_without_verify(&token).as_deref(), Some(jti.as_str()));
    let now = jsonwebtoken::get_current_timestamp();
    let c = jwt.verify_token(&token, now).unwrap();
    assert_eq!(c.sub, "7");
    assert_eq!(c.username, "alice");
    assert_eq!(c.roles, vec!["admin".to_string()]);
    assert_eq!(c.permissions, vec!["read".to_string(), "write".to_string()]);
    assert_eq!(c.token_version, 4);
    assert_eq!(c.jti, jti);
    assert_eq!(c.exp, c.iat + 3600);
    // Still accepted within the leeway, refused after it.
    assert!(jwt.verify_token(&token, c.exp + 60).is_ok());
    match jwt.verify_token(&token, c.exp + 61) {
        Err(AuthError::JwtError(m)) => assert_eq!(m, "ExpiredSignature"),
        other => panic!("unexpected {:?}", other),
    }
    // Another secret refuses the signature.
    let other = JwtService::from_secret(b"another secret");
    match other.verify_token(&token, now) {
        Err(AuthError::JwtError(m)) => assert_eq!(m, "InvalidSignature"),
        r => panic!("unexpected {:?}", r),
    }
    assert!(matches!(jwt.verify_token("not a token", now), Err(AuthError::JwtError(_))));
    let random = JwtService::new();
    assert!(random.verify_token(&token, now).is_err());
}

#[test]
fn claims_are_read_from_payloads() {
    let p = br#"{"sub":"1","username":"u","roles":["a"],"permissions":[],"token_version":2,"jti":"j","iat":5,"exp":9}"#;
    let c = claims_from_payload(p).unwrap();
    assert_eq!(c.sub, "1");
    assert_eq!(c.roles, vec!["a".to_string()]);
    assert!(c.permissions.is_empty());
    assert_eq!((c.token_version, c.iat, c.exp), (2, 5, 9));
    let missing = br#"{"sub":"1","username":"u","roles":["a"],"permissions":[],"token_version":2,"jti":"j","iat":5}"#;
    assert!(claims_from_payload(missing).is_none());
    let mistyped = br#"{"sub":1,"username":"u","roles":["a"],"permissions":[],"token_version":2,"jti":"j","iat":5,"exp":9}"#;
    assert!(claims_from_payload(mistyped).is_none());
    let bad_list = br#"{"sub":"1","username":"u","roles":[1],"permissions":[],"token_version":2,"jti":"j","iat":5,"exp":9}"#;
    assert!(claims_from_payload(bad_list).is_none());
}

struct FakeDb {
    hash: String,
    version: i64,
    revoked: bool,
    executed: std::sync::Mutex<Vec<String>>,
}

impl plugkit::database::DatabaseExt for FakeDb {
    fn execute(&self, sql: &str) -> Result<usize, plugkit::error::Error> {
        self.executed.lock().unwrap().push(sql.to_string());
        Ok(1)
    }
    fn execute_with(&self, sql: &str, _params: &[DbValue]) -> Result<usize, plugkit::error::Error> {
        self.executed.lock().unwrap().push(sql.to_string());
        Ok(1)
    }
    fn query(&self, _sql: &str) -> Result<Vec<Vec<DbValue>>, plugkit::error::Error> {
        Ok(vec![])
    }
    fn query_with(&self, sql: &str, params: &[DbValue]) -> Result<Vec<Vec<DbValue>>, plugkit::error::Error> {
        if sql.starts_with("SELECT token_version FROM users") {
            Ok(vec![vec![DbValue::Int(self.version)]])
        } else if sql.contains("FROM users") {
            match &params[0] {
                DbValue::Text(u) if u == "admin" || u == "1" => Ok(vec![vec![
                    DbValue::Int(1),
                    DbValue::Text("admin".into()),
                    DbValue::Text(self.hash.clone()),
                    DbValue::Int(self.version),
                ]]),
                _ => Ok(vec![]),
            }
        } else if sql.contains("FROM tokens") {
            if self.revoked {
                Ok(vec![vec![DbValue::Text("2024-01-01".into())]])
            } else {
                Ok(vec![vec![DbValue::Null]])
            }
        } else if sql.contains("role_permissions") {
            Ok(vec![vec![DbValue::Text("plugins.manage".into())], vec![DbValue::Text("news.publish".into())]])
        } else {
            Err(plugkit::error::Error::from(plugkit::error::ErrorKind::DatabaseError("unknown".into())))
        }
    }
    fn has_table(&self, _table: &str) -> Result<bool, plugkit::error::Error> {
        Ok(true)
    }
    fn drop_table(&self, _table: &str) -> Result<(), plugkit::error::Error> {
        Ok(())
    }
    fn describe(&self) -> String {
        "fake".into()
    }
}

#[test]
fn login_issues_a_token_for_the_user() {
    let db = FakeDb { hash: bcrypt::hash("secret", 4).unwrap(), version: 2, revoked: false, executed: std::sync::Mutex::new(vec![]) };
    let jwt = JwtService::from_secret(b"login secret");
    let resp = plugkit::auth::routes::login(&db, &jwt, "admin", "secret").unwrap();
    assert_eq!(resp.user.id, "1");
    assert_eq!(resp.user.username, "admin");
    assert_eq!(resp.user.roles, vec!["admin".to_string()]);
    assert_eq!(resp.user.permissions, vec!["plugins.manage".to_string(), "news.publish".to_string()]);
    let c = jwt.verify_token(&resp.token, jsonwebtoken::get_current_timestamp()).unwrap();
    assert_eq!(c.sub, "1");
    assert_eq!(c.token_version, 3);
    assert_eq!(c.exp, c.iat + 86400);
    let executed = db.executed.lock().unwrap().clone();
    assert!(executed[0].starts_with("UPDATE users SET token_version"));
    assert!(executed[1].starts_with("INSERT INTO tokens"));
    assert!(matches!(plugkit::auth::routes::login(&db, &jwt, "admin", "wrong"), Err(AuthError::InvalidCredentials)));
    assert!(matches!(plugkit::auth::routes::login(&db, &jwt, "nobody", "secret"), Err(AuthError::InvalidCredentials)));
    let empty: Vec<String> = vec![];
    assert!(plugkit::auth::routes::get_user_permissions(&db, &empty).unwrap().is_empty());
}

#[test]
fn token_checks_refuse_revoked_and_stale_tokens() {
    let jwt = JwtService::from_secret(b"check secret");
    let now = jsonwebtoken::get_current_timestamp();
    let (token, jti) = jwt.issue_token("1", "admin", vec!["admin".into()], vec!["p".into()], 3, 3600).unwrap();
    let current = FakeDb { hash: String::new(), version: 3, revoked: false, executed: std::sync::Mutex::new(vec![]) };
    let (ok, added) = check_token(&jwt, &current, &vec![], &token, now);
    let p = ok.unwrap();
    assert_eq!((p.user_id.as_str(), p.token_version, p.jti.as_str()), ("1", 3, jti.as_str()));
    assert!(added.is_none());
    let (r, added) = check_token(&jwt, &current, &vec![jti.clone()], &token, now);
    assert!(matches!(r, Err(AuthError::TokenRevoked)) && added.is_none());
    let stale = FakeDb { hash: String::new(), version: 4, revoked: false, executed: std::sync::Mutex::new(vec![]) };
    assert!(matches!(check_token(&jwt, &stale, &vec![], &token, now).0, Err(AuthError::TokenRevoked)));
    let in_store = FakeDb { hash: String::new(), version: 3, revoked: true, executed: std::sync::Mutex::new(vec![]) };
    let (r, added) = check_token(&jwt, &in_store, &vec![], &token, now);
    assert!(matches!(r, Err(AuthError::TokenRevoked)));
    assert_eq!(added, Some(jti));
}

#[test]
fn login_decisions_on_user_rows() {
    let hash = bcrypt::hash("pw", 4).unwrap();
    let row = vec![DbValue::Int(9), DbValue::Text("bob".into()), DbValue::Text(hash.clone()), DbValue::Int(6)];
    assert_eq!(login_user(&vec![row.clone()], "pw").unwrap(), ("9".to_string(), "bob".to_string(), 7));
    assert!(matches!(login_user(&vec![row.clone()], "nope"), Err(AuthError::InvalidCredentials)));
    assert!(matches!(login_user(&vec![], "pw"), Err(AuthError::InvalidCredentials)));
    assert!(matches!(login_user(&vec![vec![DbValue::Int(9)]], "pw"), Err(AuthError::Internal(_))));
    let maxed = vec![DbValue::Int(9), DbValue::Text("bob".into()), DbValue::Text(hash), DbValue::Int(-1)];
    assert!(matches!(login_user(&vec![maxed], "pw"), Err(AuthError::Internal(_))));
    let bad_hash = vec![DbValue::Int(9), DbValue::Text("bob".into()), DbValue::Text("x".into()), DbValue::Int(1)];
    assert!(matches!(login_user(&vec![bad_hash], "pw"), Err(AuthError::PasswordHashError(_))));
    let (sql, p) = user_query("bob");
    assert_eq!(sql, "SELECT id, username, password_hash, token_version FROM users WHERE username = ?");
    assert!(matches!(&p[..], [DbValue::Text(u)] if u == "bob"));
    let (sql, p) = version_update("9", 7);
    assert_eq!(sql, "UPDATE users SET token_version = ?, updated_at = datetime('now') WHERE id = ?");
    assert!(matches!(&p[..], [DbValue::Int(7), DbValue::Text(u)] if u == "9"));
    let (sql, p) = token_insert("j", "9", "2030-01-01T00:00:00+00:00");
    assert_eq!(sql, "INSERT INTO tokens (jti, user_id, expires_at) VALUES (?, ?, ?)");
    assert_eq!(p.len(), 3);
}

#[test]
fn stored_token_decisions() {
    let (sql, p) = revocation_query("j");
    assert_eq!(sql, "SELECT revoked_at FROM tokens WHERE jti = ?");
    assert!(matches!(&p[..], [DbValue::Text(t)] if t == "j"));
    let (sql, p) = version_query("7");
    assert_eq!(sql, "SELECT token_version FROM users WHERE id = ?");
    assert!(matches!(&p[..], [DbValue::Text(t)] if t == "7"));
    let live = vec![vec![DbValue::Null]];
    let dead = vec![vec![DbValue::Text("2024-01-01".into())]];
    let v3 = vec![vec![DbValue::Int(3)]];
    assert!(stored_token_decision(claims(3), &live, &v3).is_ok());
    assert!(matches!(stored_token_decision(claims(3), &dead, &v3), Err(AuthError::TokenRevoked)));
    assert!(matches!(stored_token_decision(claims(2), &live, &v3), Err(AuthError::TokenRevoked)));
    assert!(matches!(stored_token_decision(claims(3), &live, &vec![]), Err(AuthError::UserNotFound(u)) if u == "7"));
}

#[derive(Debug)]
struct FakeAuth;

impl plugkit::auth::AuthService for FakeAuth {
    fn verify_token(&self, token: &str) -> Result<Principal, AuthError> {
        if token == "good" { Ok(user(&["read"])) } else { Err(AuthError::TokenRevoked) }
    }
    fn revoke_token(&self, _jti: &str) -> Result<(), AuthError> {
        Ok(())
    }
    fn revoke_user_tokens(&self, _user_id: &str) -> Result<(), AuthError> {
        Ok(())
    }
}

#[test]
fn middleware_admission() {
    let (p, id) = admit_request(&FakeAuth, &AuthRequirement::Public, None, None).unwrap();
    assert!(p.is_none());
    assert_eq!(id, "unknown");
    let (p, id) = admit_request(&FakeAuth, &AuthRequirement::Permission("read"), Some("Bearer good"), Some("afp")).unwrap();
    assert_eq!(p.unwrap().user_id, "1");
    assert_eq!(id, "afp");
    let e = admit_request(&FakeAuth, &AuthRequirement::Public, Some("Bearer bad"), None).unwrap_err();
    assert_eq!((e.status, e.error.as_str()), (401, "token_revoked"));
    let e = admit_request(&FakeAuth, &AuthRequirement::Authenticated, Some("Basic x"), None).unwrap_err();
    assert_eq!((e.status, e.error.as_str(), e.message.as_str()), (401, "unauthorized", "需要登录"));
    let e = admit_request(&FakeAuth, &AuthRequirement::Permission("write"), Some("Bearer good"), None).unwrap_err();
    assert_eq!((e.status, e.error.as_str(), e.required.as_deref()), (403, "forbidden", Some("write")));
}

#[test]
fn user_ids_are_written_in_decimal() {
    for (v, t) in [(0i64, "0"), (7, "7"), (10, "10"), (1234567890, "1234567890"), (-5, "-5"), (i64::MAX, "9223372036854775807"), (i64::MIN, "-9223372036854775808")] {
        let row = vec![DbValue::Int(v), DbValue::Text("u".into()), DbValue::Text("h".into()), DbValue::Int(1)];
        assert_eq!(parse_user_row(&row).unwrap().0, t);
    }
}

#[test]
fn revocations_write_the_store() {
    let (sql, p) = token_revoke("j");
    assert_eq!(sql, "UPDATE tokens SET revoked_at = datetime('now') WHERE jti = ?");
    assert!(matches!(&p[..], [DbValue::Text(t)] if t == "j"));
    assert_eq!(version_bump("1").0, "UPDATE users SET token_version = token_version + 1, updated_at = datetime('now') WHERE id = ?");
    assert_eq!(user_tokens_revoke("1").0, "UPDATE tokens SET revoked_at = datetime('now') WHERE user_id = ? AND revoked_at IS NULL");
    let db = FakeDb { hash: String::new(), version: 1, revoked: false, executed: std::sync::Mutex::new(vec![]) };
    revoke_in_store(&db, "j").unwrap();
    revoke_user_in_store(&db, "1").unwrap();
    let executed = db.executed.lock().unwrap().clone();
    assert_eq!(executed, vec![token_revoke("j").0, version_bump("1").0, user_tokens_revoke("1").0]);
}
