use grand_casino::error::AppError;
use grand_casino::identity::{
    display_name, push_value, ClaimValue, Identity, TokenClaims,
};

fn text(s: &str) -> ClaimValue {
    ClaimValue::Text(s.to_string())
}

fn claims(extra: Vec<(&str, ClaimValue)>) -> TokenClaims {
    TokenClaims {
        sub: "sub-123".to_string(),
        name: Some("Full Name".to_string()),
        email: Some("user@example.org".to_string()),
        extra: extra.into_iter().map(|(k, v)| (k.to_string(), v)).collect(),
    }
}

fn identity(id: TokenClaims, access: Option<TokenClaims>, role_claims: Option<&str>, admin: Option<&str>) -> Identity {
    Identity::from_session_claims(Ok(id), access, role_claims, admin).expect("identity")
}

#[test]
fn plain_user_gets_user_role() {
    let id = identity(claims(vec![("groups", ClaimValue::List(vec![text("casino_users@localhost")]))]), None, None, None);
    assert!(!id.is_admin);
    assert_eq!(id.roles, vec!["user".to_string()]);
    assert_eq!(id.subject, "sub-123");
    assert_eq!(id.email.as_deref(), Some("user@example.org"));
}

#[test]
fn admin_group_gives_admin_role() {
    let id = identity(claims(vec![("groups", ClaimValue::List(vec![text("casino_admins@localhost")]))]), None, None, None);
    assert!(id.is_admin);
    assert_eq!(id.roles, vec!["user".to_string(), "admin".to_string()]);
    assert!(id.require_admin().is_ok());
}

#[test]
fn admin_marker_ignores_case() {
    let id = identity(claims(vec![("roles", text("Casino_ADMINS"))]), None, None, None);
    assert!(id.is_admin);
    let id = identity(claims(vec![("roles", text("operators"))]), None, None, Some("OPERATOR"));
    assert!(id.is_admin);
}

#[test]
fn scope_string_is_split() {
    let mut out = Vec::new();
    push_value(&text("openid profile,admin  email"), &mut out);
    assert_eq!(out, vec!["openid", "profile", "admin", "email"]);
}

#[test]
fn nested_objects_are_scanned() {
    let realm = ClaimValue::Object(vec![ClaimValue::List(vec![text("realm-admin"), ClaimValue::Other])]);
    let id = identity(claims(vec![("realm_access", realm)]), None, Some(" realm_access ,,"), None);
    assert!(id.is_admin);
}

#[test]
fn unlisted_claims_are_ignored() {
    let id = identity(claims(vec![("secret", text("admin"))]), None, None, None);
    assert!(!id.is_admin);
}

#[test]
fn access_token_roles_count() {
    let access = claims(vec![("scope", text("openid admin"))]);
    let id = identity(claims(vec![]), Some(access), None, None);
    assert!(id.is_admin);
}

#[test]
fn display_name_preference() {
    let c = claims(vec![("preferred_username", text("rehmann_user"))]);
    assert_eq!(display_name(&c, "sub"), "rehmann_user");
    let c = claims(vec![("preferred_username", ClaimValue::Other)]);
    assert_eq!(display_name(&c, "sub"), "Full Name");
    let mut c = claims(vec![]);
    c.name = None;
    assert_eq!(display_name(&c, "sub"), "user@example.org");
    c.email = None;
    assert_eq!(display_name(&c, "sub"), "sub");
}

#[test]
fn bad_id_token_is_unauthorized() {
    match Identity::from_session_claims(Err("bad base64".to_string()), None, None, None) {
        Err(AppError::Unauthorized(m)) => assert_eq!(m, "invalid id token: bad base64"),
        other => panic!("unexpected {:?}", other),
    }
}

#[test]
fn require_admin_refuses_users() {
    let id = identity(claims(vec![]), None, None, None);
    match id.require_admin() {
        Err(AppError::Forbidden(m)) => assert_eq!(m, "admin role required"),
        other => panic!("unexpected {:?}", other),
    }
}
