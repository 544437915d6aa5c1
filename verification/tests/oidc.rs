use grand_casino::oidc::{logout_endpoint, oidc_configuration, oidc_settings, secret_value, session_minutes};

fn s(x: &str) -> String {
    x.to_string()
}

#[test]
fn secret_value_prefers_the_variable() {
    let file = Some((s("/run/secrets/x"), Ok(s("  from-file \n"))));
    assert_eq!(secret_value("OIDC_CLIENT_SECRET", Some(s("direct")), file), Ok(s("direct")));
}

#[test]
fn secret_value_reads_trimmed_file() {
    let file = Some((s("/run/secrets/x"), Ok(s("  from-file \n"))));
    assert_eq!(secret_value("OIDC_CLIENT_SECRET", None, file), Ok(s("from-file")));
}

#[test]
fn secret_value_reports_unreadable_file() {
    let file = Some((s("/run/secrets/x"), Err(s("No such file or directory (os error 2)"))));
    assert_eq!(
        secret_value("PRIVATE_COOKIE_KEY", None, file),
        Err(s("failed to read PRIVATE_COOKIE_KEY_FILE (/run/secrets/x): No such file or directory (os error 2)"))
    );
}

#[test]
fn secret_value_reports_missing_secret() {
    assert_eq!(
        secret_value("OIDC_CLIENT_SECRET", None, None),
        Err(s("OIDC_CLIENT_SECRET (or OIDC_CLIENT_SECRET_FILE) must be set"))
    );
}

#[test]
fn session_minutes_parses_integers_only() {
    assert_eq!(session_minutes("60"), Ok(60));
    assert_eq!(session_minutes("-5"), Ok(-5));
    let bad = Err(s("SESSION_MAX_AGE must be a valid integer (minutes)"));
    assert_eq!(session_minutes("1.5"), bad);
    assert_eq!(session_minutes(""), bad);
    assert_eq!(session_minutes(" 60"), bad);
}

fn settings_with(
    secret: Result<String, String>,
    key: Result<String, String>,
    age: &str,
) -> Result<grand_casino::oidc::OidcSettings, String> {
    oidc_settings(
        s("casino"),
        secret,
        key,
        s("http://localhost:8080/auth/callback"),
        s("https://idm/ui/oauth2"),
        s("https://idm/oauth2/token"),
        s("http://localhost:5173/"),
        age,
        Some(s("/certs/ca.pem")),
    )
}

#[test]
fn oidc_settings_hold_the_configured_values() {
    let st = settings_with(Ok(s("secret")), Ok(s("cookie")), "120").expect("settings");
    assert_eq!(st.client_id, "casino");
    assert_eq!(st.client_secret, "secret");
    assert_eq!(st.cookie_key, "cookie");
    assert_eq!(st.redirect_uri, "http://localhost:8080/auth/callback");
    assert_eq!(st.auth_endpoint, "https://idm/ui/oauth2");
    assert_eq!(st.token_endpoint, "https://idm/oauth2/token");
    assert_eq!(st.post_logout_uri, "http://localhost:5173/");
    assert_eq!(st.scopes, vec![s("openid"), s("profile"), s("email"), s("groups")]);
    assert_eq!(st.session_max_age, 120);
    assert_eq!(st.ca_cert, Some(s("/certs/ca.pem")));
}

#[test]
fn oidc_settings_report_the_first_problem() {
    let r = settings_with(Err(s("secret missing")), Err(s("key missing")), "x");
    assert_eq!(r.err(), Some(s("secret missing")));
    let r = settings_with(Ok(s("secret")), Err(s("key missing")), "x");
    assert_eq!(r.err(), Some(s("key missing")));
    let r = settings_with(Ok(s("secret")), Ok(s("cookie")), "x");
    assert_eq!(r.err(), Some(s("SESSION_MAX_AGE must be a valid integer (minutes)")));
}

fn configuration_with(age: &str, ca: Option<String>) -> Result<(), String> {
    oidc_configuration(
        s("casino"),
        Ok(s("secret")),
        Ok(s("cookie")),
        s("http://localhost:8080/auth/callback"),
        s("https://idm/ui/oauth2"),
        s("https://idm/oauth2/token"),
        s("http://localhost:5173/"),
        age,
        ca,
    )
    .map(|_| ())
}

#[test]
fn oidc_configuration_builds_when_settings_are_complete() {
    assert_eq!(configuration_with("30", None), Ok(()));
    assert_eq!(configuration_with("30", Some(s("/certs/ca.pem"))), Ok(()));
    assert_eq!(
        configuration_with("thirty", None),
        Err(s("SESSION_MAX_AGE must be a valid integer (minutes)"))
    );
}

#[test]
fn logout_endpoint_is_trimmed_or_absent() {
    assert_eq!(logout_endpoint(Some("  https://idm/oauth2/logout \n")), Some(s("https://idm/oauth2/logout")));
    assert_eq!(logout_endpoint(Some("   ")), None);
    assert_eq!(logout_endpoint(Some("")), None);
    assert_eq!(logout_endpoint(None), None);
}
