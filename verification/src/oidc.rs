//! The OIDC client configuration: secrets given directly or through a
//! `<NAME>_FILE`, the session lifetime in minutes, the fixed scopes, an
//! optional CA certificate, and the logout endpoint.

use crate::text::{parse_i64, parsed_i64, trim, trimmed};
use axum_oidc_client::auth::OAuthConfiguration;
use axum_oidc_client::auth_builder::OAuthConfigurationBuilder;
use vstd::prelude::*;

verus! {

#[verifier::external_type_specification]
#[verifier::external_body]
pub struct ExOAuthConfiguration(OAuthConfiguration);

/// The values the OIDC client is configured with.
#[derive(Debug)]
pub struct OidcSettings {
    pub client_id: String,
    pub client_secret: String,
    pub cookie_key: String,
    pub redirect_uri: String,
    pub auth_endpoint: String,
    pub token_endpoint: String,
    pub post_logout_uri: String,
    /// Scopes requested at login.
    pub scopes: Vec<String>,
    /// Session lifetime, in minutes.
    pub session_max_age: i64,
    /// CA certificate of a self-signed identity provider, if any.
    pub ca_cert: Option<String>,
}

/// The outcome of reading a secret: its value when set; otherwise the
/// trimmed contents of the file named by `<name>_FILE` (`file` holds that path
/// and the contents or the read error); otherwise an error.
pub open spec fn secret_outcome(
    name: Seq<char>,
    value: Option<String>,
    file: Option<(String, Result<String, String>)>,
) -> Result<Seq<char>, Seq<char>> {
    match value {
        Some(v) => Ok(v@),
        None => match file {
            Some((path, Ok(contents))) => Ok(trimmed(contents@)),
            Some((path, Err(e))) => Err(
                "failed to read "@ + name + "_FILE ("@ + path@ + "): "@ + e@,
            ),
            None => Err(name + " (or "@ + name + "_FILE) must be set"@),
        },
    }
}

/// The view of a result of strings.
pub open spec fn text_result(r: Result<String, String>) -> Result<Seq<char>, Seq<char>> {
    match r {
        Ok(v) => Ok(v@),
        Err(e) => Err(e@),
    }
}

/// A secret named `name`: `value` is the environment's value, `file` the path
/// in `<name>_FILE` with what reading it gave (only looked at when `value` is
/// unset).
pub fn secret_value(
    name: &str,
    value: Option<String>,
    file: Option<(String, Result<String, String>)>,
) -> (r: Result<String, String>)
    ensures
        text_result(r) == secret_outcome(name@, value, file),
{
    match value {
        Some(v) => Ok(v),
        None => match file {
            Some((path, Ok(contents))) => Ok(String::from_str(trim(contents.as_str()))),
            Some((path, Err(e))) => {
                let mut m = String::from_str("failed to read ");
                m.append(name);
                m.append("_FILE (");
                m.append(path.as_str());
                m.append("): ");
                m.append(e.as_str());
                Err(m)
            },
            None => {
                let mut m = String::from_str(name);
                m.append(" (or ");
                m.append(name);
                m.append("_FILE) must be set");
                Err(m)
            },
        },
    }
}

/// The session lifetime in minutes from the text of `SESSION_MAX_AGE`: an
/// integer, else `Err("SESSION_MAX_AGE must be a valid integer (minutes)")`.
pub fn session_minutes(raw: &str) -> (r: Result<i64, String>)
    ensures
        match parsed_i64(raw@) {
            Some(v) => r == Ok::<i64, String>(v as i64),
            None => r matches Err(m) && m@ == "SESSION_MAX_AGE must be a valid integer (minutes)"@,
        },
{
    match parse_i64(raw) {
        Some(v) => Ok(v),
        None => Err(String::from_str("SESSION_MAX_AGE must be a valid integer (minutes)")),
    }
}

/// The scopes requested at login.
pub open spec fn login_scopes() -> Seq<Seq<char>> {
    seq!["openid"@, "profile"@, "email"@, "groups"@]
}

/// The views of a list of strings.
pub open spec fn texts(v: Seq<String>) -> Seq<Seq<char>> {
    v.map_values(|s: String| s@)
}

/// The settings of the OIDC client from the configured values: the client
/// secret and the cookie key as secrets (`secret_value`), `SESSION_MAX_AGE`
/// in minutes. The first problem wins: client secret, cookie key, session
/// lifetime.
pub fn oidc_settings(
    client_id: String,
    client_secret: Result<String, String>,
    cookie_key: Result<String, String>,
    redirect_uri: String,
    auth_endpoint: String,
    token_endpoint: String,
    post_logout_uri: String,
    session_max_age: &str,
    ca_cert: Option<String>,
) -> (r: Result<OidcSettings, String>)
    ensures
        match client_secret {
            Err(e) => r == Err::<OidcSettings, String>(e),
            Ok(secret) => match cookie_key {
                Err(e) => r == Err::<OidcSettings, String>(e),
                Ok(key) => match parsed_i64(session_max_age@) {
                    None => r matches Err(m) && m@
                        == "SESSION_MAX_AGE must be a valid integer (minutes)"@,
                    Some(minutes) => r matches Ok(s) && {
                        &&& s.client_id == client_id
                        &&& s.client_secret == secret
                        &&& s.cookie_key == key
                        &&& s.redirect_uri == redirect_uri
                        &&& s.auth_endpoint == auth_endpoint
                        &&& s.token_endpoint == token_endpoint
                        &&& s.post_logout_uri == post_logout_uri
                        &&& texts(s.scopes@) == login_scopes()
                        &&& s.session_max_age == minutes
                        &&& s.ca_cert == ca_cert
                    },
                },
            },
        },
{
    let client_secret = match client_secret {
        Ok(v) => v,
        Err(e) => return Err(e),
    };
    let cookie_key = match cookie_key {
        Ok(v) => v,
        Err(e) => return Err(e),
    };
    let minutes = match session_minutes(session_max_age) {
        Ok(v) => v,
        Err(e) => return Err(e),
    };
    let mut scopes: Vec<String> = Vec::new();
    scopes.push(String::from_str("openid"));
    scopes.push(String::from_str("profile"));
    scopes.push(String::from_str("email"));
    scopes.push(String::from_str("groups"));
    assert(texts(scopes@) =~= login_scopes());
    Ok(
        OidcSettings {
            client_id,
            client_secret,
            cookie_key,
            redirect_uri,
            auth_endpoint,
            token_endpoint,
            post_logout_uri,
            scopes,
            session_max_age: minutes,
            ca_cert,
        },
    )
}

/// Wrapper around axum-oidc-client's `OAuthConfigurationBuilder`: every
/// required setting is given (client id and secret, cookie key, redirect URI,
/// authorization and token endpoints, post-logout URI, session lifetime), the
/// scopes and the optional CA certificate; `build` fails only on a missing
/// required setting, so it succeeds here.
/// What the configuration holds is not stated: the type is opaque here.
#[verifier::external_body]
fn oauth_configuration(s: &OidcSettings) -> (r: Result<OAuthConfiguration, String>)
    ensures
        r is Ok,
{
    let mut b = OAuthConfigurationBuilder::default().with_client_id(&s.client_id).with_client_secret(
        &s.client_secret,
    ).with_private_cookie_key(&s.cookie_key).with_redirect_uri(
        &s.redirect_uri,
    ).with_authorization_endpoint(&s.auth_endpoint).with_token_endpoint(
        &s.token_endpoint,
    ).with_post_logout_redirect_uri(&s.post_logout_uri).with_scopes(
        s.scopes.iter().map(|x| x.as_str()).collect(),
    ).with_session_max_age(s.session_max_age);
    b.custom_ca_cert = s.ca_cert.clone();
    b.build().map_err(|e| e.to_string())
}

/// The OIDC client configuration from the configured values (see
/// `oidc_settings`): the first problem with them, or the configuration.
pub fn oidc_configuration(
    client_id: String,
    client_secret: Result<String, String>,
    cookie_key: Result<String, String>,
    redirect_uri: String,
    auth_endpoint: String,
    token_endpoint: String,
    post_logout_uri: String,
    session_max_age: &str,
    ca_cert: Option<String>,
) -> (r: Result<OAuthConfiguration, String>)
    ensures
        match client_secret {
            Err(e) => r == Err::<OAuthConfiguration, String>(e),
            Ok(_) => match cookie_key {
                Err(e) => r == Err::<OAuthConfiguration, String>(e),
                Ok(_) => match parsed_i64(session_max_age@) {
                    None => r matches Err(m) && m@
                        == "SESSION_MAX_AGE must be a valid integer (minutes)"@,
                    Some(_) => r is Ok,
                },
            },
        },
{
    match oidc_settings(
        client_id,
        client_secret,
        cookie_key,
        redirect_uri,
        auth_endpoint,
        token_endpoint,
        post_logout_uri,
        session_max_age,
        ca_cert,
    ) {
        Ok(s) => oauth_configuration(&s),
        Err(e) => Err(e),
    }
}

/// The end-session endpoint for RP-initiated logout: the configured one,
/// trimmed, unless it is blank (then logout is local only).
pub fn logout_endpoint(configured: Option<&str>) -> (r: Option<String>)
    ensures
        match configured {
            Some(c) => if trimmed(c@).len() > 0 {
                r matches Some(e) && e@ == trimmed(c@)
            } else {
                r is None
            },
            None => r is None,
        },
{
    match configured {
        Some(c) => {
            let t = trim(c);
            if t.unicode_len() > 0 {
                Some(String::from_str(t))
            } else {
                None
            }
        },
        None => None,
    }
}

} // verus!
