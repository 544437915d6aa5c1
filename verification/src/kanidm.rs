//! Self-registration against Kanidm: the settings, the request URLs, and what
//! each answer of the Kanidm REST API means for the registration.
//!
//! Registration creates a person, adds it to the casino users group, and mints
//! a credential-reset token so the new user can set a password.

use crate::error::AppError;
use crate::text::{decimal, decimal_text, strip_trailing, strip_trailing_char, trim, trimmed};
use vstd::prelude::*;

verus! {

/// Lifetime of a credential-reset token, in seconds (one day).
pub const RESET_TTL_SECONDS: i64 = 86_400;

/// What registration needs besides the HTTP client.
#[derive(Debug)]
pub struct RegistrarSettings {
    /// Internal API base, e.g. `https://kanidm:8443`, without trailing `/`.
    pub api_url: String,
    /// Browser-facing origin for the reset link, without trailing `/`.
    pub public_origin: String,
    /// Service-account API token.
    pub token: String,
    /// Group new users join.
    pub group: String,
    /// Lifetime of the reset token, in seconds.
    pub reset_ttl: i64,
}

/// The status is a success (`2xx`).
pub open spec fn is_success(status: u16) -> bool {
    200 <= status <= 299
}

/// The registrar token from its two sources: the value of
/// `KANIDM_REGISTRAR_TOKEN` when it is set and not empty; otherwise, when
/// `KANIDM_REGISTRAR_TOKEN_FILE` names a file (`file` is `Some`), the trimmed
/// contents of that file if it could be read (`Some(Some(contents))`).
pub open spec fn token_outcome(value: Option<String>, file: Option<Option<String>>) -> Option<
    Seq<char>,
> {
    if value is Some && value.unwrap()@.len() > 0 {
        Some(value.unwrap()@)
    } else {
        match file {
            Some(Some(contents)) => Some(trimmed(contents@)),
            _ => None,
        }
    }
}

/// The view of an optional string.
pub open spec fn opt_string_view(r: Option<String>) -> Option<Seq<char>> {
    match r {
        Some(t) => Some(t@),
        None => None,
    }
}

/// The registrar token (see `token_outcome`): `value` is the environment's
/// `KANIDM_REGISTRAR_TOKEN`, `file` is `None` when no token file is
/// configured, else what reading it gave (`None` when it could not be read).
pub fn registrar_token(value: Option<String>, file: Option<Option<String>>) -> (r: Option<String>)
    ensures
        opt_string_view(r) == token_outcome(value, file),
{
    if let Some(v) = value {
        if v.unicode_len() > 0 {
            return Some(v);
        }
    }
    match file {
        Some(Some(contents)) => Some(String::from_str(trim(contents.as_str()))),
        _ => None,
    }
}

impl RegistrarSettings {
    /// Settings from the configured values: the registrar token
    /// (`KANIDM_REGISTRAR_TOKEN`), `KANIDM_API_URL`, `KANIDM_PUBLIC_ORIGIN` and
    /// `KANIDM_REGISTER_GROUP`. Without a token or an API URL registration is
    /// off (`None`). Trailing `/` are removed from the URL and the origin; the
    /// origin defaults to the URL and the group to `casino_users`.
    pub fn from_values(
        token: Option<String>,
        api_url: Option<&str>,
        public_origin: Option<&str>,
        group: Option<&str>,
    ) -> (r: Option<RegistrarSettings>)
        ensures
            (token is None || api_url is None) ==> r is None,
            token is Some && api_url is Some ==> (r matches Some(s) && {
                let url = strip_trailing(api_url.unwrap()@, '/');
                &&& s.token == token.unwrap()
                &&& s.api_url@ == url
                &&& s.public_origin@ == match public_origin {
                    Some(o) => strip_trailing(o@, '/'),
                    None => strip_trailing(url, '/'),
                }
                &&& s.group@ == match group {
                    Some(g) => g@,
                    None => "casino_users"@,
                }
                &&& s.reset_ttl == RESET_TTL_SECONDS
            }),
    {
        let token = match token {
            Some(t) => t,
            None => return None,
        };
        let api = match api_url {
            Some(a) => String::from_str(strip_trailing_char(a, '/')),
            None => return None,
        };
        let origin = match public_origin {
            Some(o) => String::from_str(strip_trailing_char(o, '/')),
            None => String::from_str(strip_trailing_char(api.as_str(), '/')),
        };
        let group = match group {
            Some(g) => String::from_str(g),
            None => String::from_str("casino_users"),
        };
        Some(
            RegistrarSettings {
                api_url: api,
                public_origin: origin,
                token,
                group,
                reset_ttl: RESET_TTL_SECONDS,
            },
        )
    }

    /// `<api>/v1/person`: where persons are created.
    pub fn person_url(&self) -> (u: String)
        ensures
            u@ == self.api_url@ + "/v1/person"@,
    {
        let mut u = self.api_url.clone();
        u.append("/v1/person");
        u
    }

    /// `<api>/v1/group/<group>/_attr/member`: the member list of the group.
    pub fn group_member_url(&self) -> (u: String)
        ensures
            u@ == self.api_url@ + "/v1/group/"@ + self.group@ + "/_attr/member"@,
    {
        let mut u = self.api_url.clone();
        u.append("/v1/group/");
        u.append(self.group.as_str());
        u.append("/_attr/member");
        u
    }

    /// `<api>/v1/person/<username>/_credential/_update_intent/<ttl>`: where a
    /// credential-reset token is minted.
    pub fn reset_intent_url(&self, username: &str) -> (u: String)
        ensures
            u@ == self.api_url@ + "/v1/person/"@ + username@ + "/_credential/_update_intent/"@
                + decimal(self.reset_ttl as int),
    {
        let mut u = self.api_url.clone();
        u.append("/v1/person/");
        u.append(username);
        u.append("/_credential/_update_intent/");
        let ttl = decimal_text(self.reset_ttl);
        u.append(ttl.as_str());
        u
    }

    /// `<origin>/ui/reset?token=<token>`: the link the new user opens to set a
    /// password.
    pub fn reset_link(&self, reset_token: &str) -> (u: String)
        ensures
            u@ == self.public_origin@ + "/ui/reset?token="@ + reset_token@,
    {
        let mut u = self.public_origin.clone();
        u.append("/ui/reset?token=");
        u.append(reset_token);
        u
    }
}

/// The canonical reason phrase of an HTTP status code, or
/// `<unknown status code>` for a code without one, as the `http` crate has it.
pub uninterp spec fn status_reason(code: u16) -> Seq<char>;

/// The text of an HTTP status: its number, a space and its reason phrase.
pub open spec fn status_display(code: u16) -> Seq<char> {
    decimal(code as int) + " "@ + status_reason(code)
}

/// Wrapper around `http::StatusCode::from_u16` followed by its `Display`:
/// `from_u16` accepts exactly the codes `100..=999`, and the text is the code,
/// a space and the reason phrase, which is named `status_reason`.
#[verifier::external_body]
fn status_text(code: u16) -> (r: Option<String>)
    ensures
        r is Some <==> 100 <= code <= 999,
        r matches Some(t) ==> t@ == decimal(code as int) + " "@ + status_reason(code),
{
    match axum::http::StatusCode::from_u16(code) {
        Ok(s) => Some(s.to_string()),
        Err(_) => None,
    }
}

/// The text of a valid HTTP status.
fn status_phrase(code: u16) -> (t: String)
    requires
        100 <= code <= 999,
    ensures
        t@ == status_display(code),
{
    match status_text(code) {
        Some(t) => t,
        None => {
            assert(false);
            String::new()
        },
    }
}

/// A request to Kanidm that got no answer: `Internal("<step>: <detail>")`.
pub fn request_failed(step: &str, detail: &str) -> (e: AppError)
    ensures
        e matches AppError::Internal(m) && m@ == step@ + ": "@ + detail@,
{
    let mut m = String::from_str(step);
    m.append(": ");
    m.append(detail);
    AppError::Internal(m)
}

/// The answer to creating a person: success is `Ok`; `400` or `409` means the
/// name is taken or not allowed (`BadRequest`); anything else is
/// `Internal("kanidm create person failed: <status> <reason>")`.
pub fn create_person_outcome(status: u16) -> (r: Result<(), AppError>)
    requires
        100 <= status <= 999,
    ensures
        is_success(status) ==> r is Ok,
        (status == 400 || status == 409) ==> (r matches Err(AppError::BadRequest(m)) && m@
            == "username is already taken or not allowed"@),
        !is_success(status) && status != 400 && status != 409 ==> (r matches Err(
            AppError::Internal(m),
        ) && m@ == "kanidm create person failed: "@ + status_display(status)),
{
    if 200 <= status && status <= 299 {
        Ok(())
    } else if status == 400 || status == 409 {
        Err(AppError::BadRequest(String::from_str("username is already taken or not allowed")))
    } else {
        let mut m = String::from_str("kanidm create person failed: ");
        let t = status_phrase(status);
        m.append(t.as_str());
        Err(AppError::Internal(m))
    }
}

/// The answer to adding the person to the group: success is `Ok`, anything
/// else `Internal("kanidm group add failed: <status> <reason>")`.
pub fn group_add_outcome(status: u16) -> (r: Result<(), AppError>)
    requires
        100 <= status <= 999,
    ensures
        is_success(status) ==> r is Ok,
        !is_success(status) ==> (r matches Err(AppError::Internal(m)) && m@
            == "kanidm group add failed: "@ + status_display(status)),
{
    if 200 <= status && status <= 299 {
        Ok(())
    } else {
        let mut m = String::from_str("kanidm group add failed: ");
        let t = status_phrase(status);
        m.append(t.as_str());
        Err(AppError::Internal(m))
    }
}

/// The answer to minting a reset token: success is `Ok`, anything else
/// `Internal("kanidm reset intent failed: <status> <reason>")`.
pub fn reset_intent_outcome(status: u16) -> (r: Result<(), AppError>)
    requires
        100 <= status <= 999,
    ensures
        is_success(status) ==> r is Ok,
        !is_success(status) ==> (r matches Err(AppError::Internal(m)) && m@
            == "kanidm reset intent failed: "@ + status_display(status)),
{
    if 200 <= status && status <= 299 {
        Ok(())
    } else {
        let mut m = String::from_str("kanidm reset intent failed: ");
        let t = status_phrase(status);
        m.append(t.as_str());
        Err(AppError::Internal(m))
    }
}

/// The reset token of a successful answer: its `token` string, or
/// `Internal("kanidm reset intent missing token")` when there is none.
pub fn reset_token_from(token: Option<String>) -> (r: Result<String, AppError>)
    ensures
        match token {
            Some(t) => r == Ok::<String, AppError>(t),
            None => r matches Err(AppError::Internal(m)) && m@
                == "kanidm reset intent missing token"@,
        },
{
    match token {
        Some(t) => Ok(t),
        None => Err(AppError::Internal(String::from_str("kanidm reset intent missing token"))),
    }
}

/// The `token` member of a JSON response body when it is a string: `None` when
/// the body is not JSON, `Some(None)` when it is JSON without a string
/// `token`, as serde_json reads it.
pub uninterp spec fn json_token_field(body: Seq<u8>) -> Option<Option<Seq<char>>>;

/// Wrapper around `serde_json::from_slice::<Value>` followed by
/// `Value::get("token")`, keeping the member only when it is a string: the
/// result is named
/// `json_token_field`.
#[verifier::external_body]
fn token_field(body: &[u8]) -> (r: Option<Option<String>>)
    ensures
        match r {
            None => json_token_field(body@) is None,
            Some(None) => json_token_field(body@) == Some(None::<Seq<char>>),
            Some(Some(t)) => json_token_field(body@) == Some(Some(t@)),
        },
{
    match serde_json::from_slice::<serde_json::Value>(body) {
        Ok(v) => match v.get("token") {
            Some(serde_json::Value::String(t)) => Some(Some(t.clone())),
            _ => Some(None),
        },
        Err(_) => None,
    }
}

/// The reset token in the body of a successful answer: a body that is not
/// JSON gives `Internal("kanidm reset intent decode: error decoding response
/// body")`, a body without a string `token` gives
/// `Internal("kanidm reset intent missing token")`.
pub fn reset_token_of_body(body: &[u8]) -> (r: Result<String, AppError>)
    ensures
        match json_token_field(body@) {
            None => r matches Err(AppError::Internal(m)) && m@
                == "kanidm reset intent decode: error decoding response body"@,
            Some(None) => r matches Err(AppError::Internal(m)) && m@
                == "kanidm reset intent missing token"@,
            Some(Some(t)) => r matches Ok(s) && s@ == t,
        },
{
    match token_field(body) {
        None => Err(
            AppError::Internal(
                String::from_str("kanidm reset intent decode: error decoding response body"),
            ),
        ),
        Some(token) => reset_token_from(token),
    }
}

} // verus!
