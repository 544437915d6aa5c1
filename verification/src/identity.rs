//! The caller's identity and roles, resolved from the claims of the session's
//! OIDC tokens.
//!
//! Every role, group or scope string found in the configured claims of the ID
//! token and of the access token is gathered; the caller is an admin when any
//! of them contains the configured marker (default `admin`), ignoring case.

use crate::error::AppError;
use crate::text::{
    comma_list, contains_text, opt_text, lowercase_of, occurs_in, split_comma_list, split_words, to_lowercase,
    views, word_list,
};
use axum_oidc_client::jwt::decode_jwt_unverified;
use serde_json::Value;
use vstd::prelude::*;

verus! {

/// A JSON claim value, as far as role gathering reads it.
#[derive(Debug)]
pub enum ClaimValue {
    /// A string.
    Text(String),
    /// An array, its items in order.
    List(Vec<ClaimValue>),
    /// An object, its member values in the object's order.
    Object(Vec<ClaimValue>),
    /// A number, boolean or null.
    Other,
}

/// The claims of a decoded token that identity resolution reads.
#[derive(Debug)]
pub struct TokenClaims {
    /// `sub`.
    pub sub: String,
    /// `name`, when present.
    pub name: Option<String>,
    /// `email`, when present.
    pub email: Option<String>,
    /// Every other claim: its name and value, each name once.
    pub extra: Vec<(String, ClaimValue)>,
}

/// The resolved caller identity used by the handlers.
#[derive(Debug)]
pub struct Identity {
    /// OIDC subject – the stable per-user key stored in the database.
    pub subject: String,
    /// Human friendly display name (preferred_username → name → email → sub).
    pub appname: String,
    pub email: Option<String>,
    pub is_admin: bool,
    /// Roles exposed to the frontend: `["user"]` or `["user", "admin"]`.
    pub roles: Vec<String>,
}

/// The value of the claim named `key` (the first entry with that name).
pub open spec fn claim_lookup(extra: Seq<(String, ClaimValue)>, key: Seq<char>) -> Option<ClaimValue>
    decreases extra.len(),
{
    if extra.len() == 0 {
        None
    } else if extra[0].0@ == key {
        Some(extra[0].1)
    } else {
        claim_lookup(extra.drop_first(), key)
    }
}

/// The claims of a token as values: subject, name, email, and every other
/// claim by name.
pub struct ClaimsView {
    pub sub: Seq<char>,
    pub name: Option<Seq<char>>,
    pub email: Option<Seq<char>>,
    pub extra: Map<Seq<char>, ClaimValue>,
}

/// The text of an optional string.
pub open spec fn opt_string(o: Option<String>) -> Option<Seq<char>> {
    match o {
        Some(s) => Some(s@),
        None => None,
    }
}

/// The other claims by name; where a name repeats, its first entry counts.
pub open spec fn claims_map(extra: Seq<(String, ClaimValue)>) -> Map<Seq<char>, ClaimValue>
    decreases extra.len(),
{
    if extra.len() == 0 {
        Map::empty()
    } else {
        claims_map(extra.drop_first()).insert(extra[0].0@, extra[0].1)
    }
}

/// The claims of a decoded token as values.
pub open spec fn claims_view(c: TokenClaims) -> ClaimsView {
    ClaimsView {
        sub: c.sub@,
        name: opt_string(c.name),
        email: opt_string(c.email),
        extra: claims_map(c.extra@),
    }
}

/// The value of the claim named `key`, if there is one.
pub open spec fn view_lookup(extra: Map<Seq<char>, ClaimValue>, key: Seq<char>) -> Option<
    ClaimValue,
> {
    if extra.contains_key(key) {
        Some(extra[key])
    } else {
        None
    }
}

/// Looking a claim up in the list agrees with looking it up by name.
proof fn lemma_lookup_by_name(extra: Seq<(String, ClaimValue)>, key: Seq<char>)
    ensures
        claim_lookup(extra, key) == view_lookup(claims_map(extra), key),
    decreases extra.len(),
{
    if extra.len() > 0 {
        lemma_lookup_by_name(extra.drop_first(), key);
    }
}

/// Every role string inside a claim value, in order: a string is split at
/// spaces and commas (empty parts dropped), arrays and objects contribute the
/// strings of their items, anything else contributes nothing.
pub open spec fn claim_strings(v: ClaimValue) -> Seq<Seq<char>>
    decreases v,
{
    match v {
        ClaimValue::Text(s) => word_list(s@),
        ClaimValue::List(items) => items_strings(items@),
        ClaimValue::Object(items) => items_strings(items@),
        ClaimValue::Other => Seq::empty(),
    }
}

/// The role strings of a list of claim values, one after the other.
pub open spec fn items_strings(items: Seq<ClaimValue>) -> Seq<Seq<char>>
    decreases items,
{
    if items.len() == 0 {
        Seq::empty()
    } else {
        items_strings(items.drop_last()) + claim_strings(items.last())
    }
}

/// Push every string of `parts` onto `out`, in order.
fn append_all(out: &mut Vec<String>, parts: Vec<String>)
    ensures
        views(final(out)@) == views(old(out)@) + views(parts@),
{
    let ghost start = views(out@);
    let mut i: usize = 0;
    assert(views(parts@).take(0) =~= Seq::<Seq<char>>::empty());
    assert(views(out@) =~= start + views(parts@).take(0));
    while i < parts.len()
        invariant
            i <= parts@.len(),
            views(out@) == start + views(parts@).take(i as int),
        decreases parts@.len() - i,
    {
        let ghost before = views(out@);
        out.push(parts[i].clone());
        assert(views(out@) =~= before.push(parts@[i as int]@));
        assert(views(parts@).take(i + 1) =~= views(parts@).take(i as int).push(parts@[i as int]@));
        i = i + 1;
    }
    assert(views(parts@).take(parts@.len() as int) =~= views(parts@));
}

/// Push every role string of a claim value onto `out`: strings split at spaces
/// and commas, arrays and objects item by item.
pub fn push_value(value: &ClaimValue, out: &mut Vec<String>)
    ensures
        views(final(out)@) == views(old(out)@) + claim_strings(*value),
    decreases value,
{
    match value {
        ClaimValue::Text(s) => {
            let parts = split_words(s.as_str());
            append_all(out, parts);
        },
        ClaimValue::List(items) => {
            push_items(items, out);
        },
        ClaimValue::Object(items) => {
            push_items(items, out);
        },
        ClaimValue::Other => {
            assert(views(out@) =~= views(out@) + Seq::<Seq<char>>::empty());
        },
    }
}

/// Push the role strings of each item, in order.
fn push_items(items: &Vec<ClaimValue>, out: &mut Vec<String>)
    ensures
        views(final(out)@) == views(old(out)@) + items_strings(items@),
    decreases items,
{
    let ghost start = views(out@);
    let mut i: usize = 0;
    assert(items@.take(0) =~= Seq::<ClaimValue>::empty());
    assert(views(out@) =~= start + items_strings(items@.take(0)));
    while i < items.len()
        invariant
            i <= items@.len(),
            views(out@) == start + items_strings(items@.take(i as int)),
        decreases items@.len() - i,
    {
        assert(items@.take(i + 1).drop_last() =~= items@.take(i as int));
        assert(items@.take(i + 1).last() == items@[i as int]);
        assert(decreases_to!(items => items@[i as int]));
        push_value(&items[i], out);
        i = i + 1;
    }
    assert(items@.take(items@.len() as int) =~= items@);
}

/// The value of the claim named `key`, if the claims hold one.
pub fn find_claim<'a>(extra: &'a Vec<(String, ClaimValue)>, key: &str) -> (r: Option<&'a ClaimValue>)
    ensures
        match r {
            Some(v) => claim_lookup(extra@, key@) == Some(*v),
            None => claim_lookup(extra@, key@) is None,
        },
{
    let wanted = String::from_str(key);
    let mut i: usize = 0;
    assert(extra@.skip(0) =~= extra@);
    while i < extra.len()
        invariant
            wanted@ == key@,
            i <= extra@.len(),
            claim_lookup(extra@, key@) == claim_lookup(extra@.skip(i as int), key@),
        decreases extra@.len() - i,
    {
        assert(extra@.skip(i as int).drop_first() =~= extra@.skip(i + 1));
        assert(extra@.skip(i as int)[0] == extra@[i as int]);
        if extra[i].0 == wanted {
            return Some(&extra[i].1);
        }
        i = i + 1;
    }
    None
}

/// Best display name: `preferred_username` when it is a string, else `name`,
/// else `email`, else the subject.
pub open spec fn spec_display_name(claims: ClaimsView, subject: Seq<char>) -> Seq<char> {
    match view_lookup(claims.extra, "preferred_username"@) {
        Some(ClaimValue::Text(u)) => u@,
        _ => match claims.name {
            Some(n) => n,
            None => match claims.email {
                Some(e) => e,
                None => subject,
            },
        },
    }
}

/// Best display name from the standard OIDC profile claims.
pub fn display_name(claims: &TokenClaims, subject: &str) -> (r: String)
    ensures
        r@ == spec_display_name(claims_view(*claims), subject@),
{
    proof {
        lemma_lookup_by_name(claims.extra@, "preferred_username"@);
    }
    match find_claim(&claims.extra, "preferred_username") {
        Some(ClaimValue::Text(u)) => return u.clone(),
        _ => {},
    }
    match &claims.name {
        Some(n) => n.clone(),
        None => match &claims.email {
            Some(e) => e.clone(),
            None => String::from_str(subject),
        },
    }
}

/// The role strings found under the given claim names, claim by claim.
pub open spec fn role_strings(extra: Map<Seq<char>, ClaimValue>, names: Seq<Seq<char>>) -> Seq<
    Seq<char>,
>
    decreases names.len(),
{
    if names.len() == 0 {
        Seq::empty()
    } else {
        role_strings(extra, names.drop_last()) + match view_lookup(extra, names.last()) {
            Some(v) => claim_strings(v),
            None => Seq::empty(),
        }
    }
}

/// The claim names to scan: the configured comma separated list (trimmed,
/// empty entries dropped), or `roles,groups,scopes,scope,entitlements`.
pub open spec fn role_claim_names(configured: Option<Seq<char>>) -> Seq<Seq<char>> {
    match configured {
        Some(c) => comma_list(c),
        None => comma_list("roles,groups,scopes,scope,entitlements"@),
    }
}

/// Push every string found in the named claims onto `out`, claim by claim.
pub fn collect_role_strings(claims: &TokenClaims, names: &Vec<String>, out: &mut Vec<String>)
    ensures
        views(final(out)@) == views(old(out)@) + role_strings(claims_view(*claims).extra, views(names@)),
{
    let ghost start = views(out@);
    let ghost ns = views(names@);
    let mut i: usize = 0;
    assert(ns.take(0) =~= Seq::<Seq<char>>::empty());
    assert(views(out@) =~= start + role_strings(claims_view(*claims).extra, ns.take(0)));
    while i < names.len()
        invariant
            ns == views(names@),
            i <= names@.len(),
            views(out@) == start + role_strings(claims_view(*claims).extra, ns.take(i as int)),
        decreases names@.len() - i,
    {
        assert(ns.take(i + 1).drop_last() =~= ns.take(i as int));
        assert(ns.take(i + 1).last() == names@[i as int]@);
        let ghost before = views(out@);
        proof {
            lemma_lookup_by_name(claims.extra@, names@[i as int]@);
        }
        match find_claim(&claims.extra, names[i].as_str()) {
            Some(v) => {
                push_value(v, out);
            },
            None => {},
        }
        assert(views(out@) =~= start + role_strings(claims_view(*claims).extra, ns.take(i + 1)));
        i = i + 1;
    }
    assert(ns.take(names@.len() as int) =~= ns);
}

/// Some role contains the marker, both compared in lower case.
pub open spec fn has_admin_role(roles: Seq<Seq<char>>, marker: Seq<char>) -> bool {
    exists|i: int|
        0 <= i < roles.len() && occurs_in(lowercase_of(marker), #[trigger] lowercase_of(roles[i]))
}

/// The marker of admin roles: the configured one, or `admin`.
pub open spec fn admin_marker(configured: Option<Seq<char>>) -> Seq<char> {
    match configured {
        Some(m) => m,
        None => "admin"@,
    }
}

/// Whether some role contains the marker, ignoring case.
pub fn any_admin_role(roles: &Vec<String>, marker: &str) -> (b: bool)
    ensures
        b == has_admin_role(views(roles@), marker@),
{
    let wanted = to_lowercase(marker);
    let mut i: usize = 0;
    while i < roles.len()
        invariant
            i <= roles@.len(),
            wanted@ == lowercase_of(marker@),
            forall|k: int|
                0 <= k < i ==> !occurs_in(lowercase_of(marker@), #[trigger] lowercase_of(views(roles@)[k])),
        decreases roles@.len() - i,
    {
        let lower = to_lowercase(roles[i].as_str());
        if contains_text(lower.as_str(), wanted.as_str()) {
            assert(views(roles@)[i as int] == roles@[i as int]@);
            return true;
        }
        i = i + 1;
    }
    false
}

/// The roles shown to the frontend: `["user"]`, plus `"admin"` for an admin.
pub open spec fn exposed_roles(is_admin: bool) -> Seq<Seq<char>> {
    if is_admin {
        seq!["user"@, "admin"@]
    } else {
        seq!["user"@]
    }
}

/// Every role string of the ID token's claims followed by those of the access
/// token's claims (when it decoded).
pub open spec fn seen_roles(
    id_claims: ClaimsView,
    access_claims: Option<ClaimsView>,
    names: Seq<Seq<char>>,
) -> Seq<Seq<char>> {
    role_strings(id_claims.extra, names) + match access_claims {
        Some(a) => role_strings(a.extra, names),
        None => Seq::empty(),
    }
}

/// A decoded ID token as values, or the reason it could not be decoded.
pub open spec fn decoded_view(id_claims: Result<TokenClaims, String>) -> Result<ClaimsView, Seq<char>> {
    match id_claims {
        Ok(c) => Ok(claims_view(c)),
        Err(e) => Err(e@),
    }
}

/// A decoded access token as values, if it decoded.
pub open spec fn access_view(access_claims: Option<TokenClaims>) -> Option<ClaimsView> {
    match access_claims {
        Some(c) => Some(claims_view(c)),
        None => None,
    }
}

/// The identity resolved from the ID token's claims (or the reason they could
/// not be read) and the access token's claims: an unreadable ID token gives
/// `Unauthorized("invalid id token: <reason>")`; otherwise the subject, the
/// display name, the email, the admin flag (some role string of the
/// configured claims of either token contains the marker, ignoring case) and
/// the roles shown to the frontend.
pub open spec fn identity_outcome(
    id_claims: Result<ClaimsView, Seq<char>>,
    access_claims: Option<ClaimsView>,
    role_claims: Option<Seq<char>>,
    admin_role: Option<Seq<char>>,
    r: Result<Identity, AppError>,
) -> bool {
    match id_claims {
        Err(e) => r matches Err(AppError::Unauthorized(m)) && m@ == "invalid id token: "@ + e,
        Ok(c) => r matches Ok(id) && {
            let roles = seen_roles(c, access_claims, role_claim_names(role_claims));
            &&& id.subject@ == c.sub
            &&& id.appname@ == spec_display_name(c, c.sub)
            &&& opt_string(id.email) == c.email
            &&& id.is_admin == has_admin_role(roles, admin_marker(admin_role))
            &&& views(id.roles@) == exposed_roles(id.is_admin)
        },
    }
}

/// A decoded access token only adds roles, for every pair of tokens and
/// configuration: the identity resolved with the access token has the same
/// subject, name and email as the one resolved from the ID token alone, and
/// is an admin whenever that one is. In particular a caller whose ID token
/// alone carries the admin marker is an admin whatever the access token holds.
pub proof fn lemma_access_token_only_adds(
    id_claims: ClaimsView,
    access_claims: Option<ClaimsView>,
    role_claims: Option<Seq<char>>,
    admin_role: Option<Seq<char>>,
    id_only: Result<Identity, AppError>,
    with_access: Result<Identity, AppError>,
)
    requires
        identity_outcome(Ok(id_claims), None, role_claims, admin_role, id_only),
        identity_outcome(Ok(id_claims), access_claims, role_claims, admin_role, with_access),
    ensures
        id_only is Ok && with_access is Ok,
        id_only.unwrap().subject@ == with_access.unwrap().subject@,
        id_only.unwrap().appname@ == with_access.unwrap().appname@,
        opt_string(id_only.unwrap().email) == opt_string(with_access.unwrap().email),
        id_only.unwrap().is_admin ==> with_access.unwrap().is_admin,
        has_admin_role(
            role_strings(id_claims.extra, role_claim_names(role_claims)),
            admin_marker(admin_role),
        ) ==> with_access.unwrap().is_admin,
{
    let names = role_claim_names(role_claims);
    let marker = admin_marker(admin_role);
    let own = role_strings(id_claims.extra, names);
    let alone = seen_roles(id_claims, None, names);
    let all = seen_roles(id_claims, access_claims, names);
    assert(alone =~= own);
    assert(forall|i: int| 0 <= i < own.len() ==> all[i] == own[i]);
    if has_admin_role(own, marker) {
        let i = choose|i: int|
            0 <= i < own.len() && occurs_in(lowercase_of(marker), #[trigger] lowercase_of(own[i]));
        assert(all[i] == own[i]);
        assert(occurs_in(lowercase_of(marker), lowercase_of(all[i])));
    }
}

impl Identity {
    /// Resolve the identity from the session's decoded tokens. `id_claims` is
    /// the decoded ID token, or the reason it could not be decoded;
    /// `access_claims` the decoded access token when it decoded; `role_claims`
    /// and `admin_role` the configured `OIDC_ROLE_CLAIMS` and `OIDC_ADMIN_ROLE`
    /// (`None` when unset). An undecodable ID token gives `Unauthorized`.
    pub fn from_session_claims(
        id_claims: Result<TokenClaims, String>,
        access_claims: Option<TokenClaims>,
        role_claims: Option<&str>,
        admin_role: Option<&str>,
    ) -> (r: Result<Identity, AppError>)
        ensures
            identity_outcome(
                decoded_view(id_claims),
                access_view(access_claims),
                opt_text(role_claims),
                opt_text(admin_role),
                r,
            ),
    {
        let id_claims = match id_claims {
            Ok(c) => c,
            Err(e) => {
                let mut m = String::from_str("invalid id token: ");
                m.append(e.as_str());
                return Err(AppError::Unauthorized(m));
            },
        };
        let subject = id_claims.sub.clone();
        let appname = display_name(&id_claims, subject.as_str());
        let email = id_claims.email.clone();

        let names = match role_claims {
            Some(c) => split_comma_list(c),
            None => split_comma_list("roles,groups,scopes,scope,entitlements"),
        };
        let mut roles_seen: Vec<String> = Vec::new();
        collect_role_strings(&id_claims, &names, &mut roles_seen);
        match &access_claims {
            Some(ac) => collect_role_strings(ac, &names, &mut roles_seen),
            None => {},
        }
        let marker = match admin_role {
            Some(m) => m,
            None => "admin",
        };
        let is_admin = any_admin_role(&roles_seen, marker);

        let mut roles: Vec<String> = Vec::new();
        roles.push(String::from_str("user"));
        if is_admin {
            roles.push(String::from_str("admin"));
        }
        proof {
            let names_v = role_claim_names(opt_text(role_claims));
            assert(views(names@) == names_v);
            let expect = seen_roles(claims_view(id_claims), access_view(access_claims), names_v);
            assert(views(roles_seen@) =~= expect);
            assert(views(roles@) =~= exposed_roles(is_admin));
        }
        Ok(Identity { subject, appname, email, is_admin, roles })
    }

    /// Guard for admin-only handlers: `Ok` for an admin, otherwise
    /// `Forbidden("admin role required")`.
    pub fn require_admin(&self) -> (r: Result<(), AppError>)
        ensures
            self.is_admin ==> r is Ok,
            !self.is_admin ==> (r matches Err(AppError::Forbidden(m)) && m@ == "admin role required"@),
    {
        if self.is_admin {
            Ok(())
        } else {
            Err(AppError::Forbidden(String::from_str("admin role required")))
        }
    }
}

#[verifier::external_type_specification]
#[verifier::external_body]
pub struct ExJsonValue(Value);

/// What axum-oidc-client's `decode_jwt_unverified` makes of a token: the
/// token's claims as values, or the text of its error.
pub uninterp spec fn jwt_decoded(token: Seq<char>) -> Result<ClaimsView, Seq<char>>;

/// Conversion of a serde_json value into a claim value, one for one: a string
/// stays a string, an array or an object becomes the list of its converted
/// items or member values (in the object's order), anything else is `Other`.
/// Nothing is claimed of it; only `decode_token` uses it, to convert what
/// `decode_jwt_unverified` returns.
#[verifier::external_body]
fn claim_value_of(v: Value) -> ClaimValue {
    match v {
        Value::String(s) => ClaimValue::Text(s),
        Value::Array(items) => ClaimValue::List(items.into_iter().map(claim_value_of).collect()),
        Value::Object(map) => ClaimValue::Object(map.into_iter().map(|(_, v)| claim_value_of(v)).collect()),
        _ => ClaimValue::Other,
    }
}

/// Wrapper around axum-oidc-client's `decode_jwt_unverified` (base64 and JSON
/// decoding of the claims, no signature check), with its claims converted to
/// `TokenClaims` and its error to its text: the result, as values, is named
/// `jwt_decoded`. The other claims come from a map, so their order in `extra`
/// is not claimed; each name occurs once.
#[verifier::external_body]
pub fn decode_token(token: &str) -> (r: Result<TokenClaims, String>)
    ensures
        decoded_view(r) == jwt_decoded(token@),
{
    match decode_jwt_unverified(token) {
        Ok((_, c)) => Ok(TokenClaims {
            sub: c.sub,
            name: c.name,
            email: c.email,
            extra: c.extra.into_iter().map(|(k, v)| (k, claim_value_of(v))).collect(),
        }),
        Err(e) => Err(e.to_string()),
    }
}

/// The access token's claims when it decoded.
pub open spec fn access_decoded(token: Seq<char>) -> Option<ClaimsView> {
    match jwt_decoded(token) {
        Ok(c) => Some(c),
        Err(_) => None,
    }
}

impl Identity {
    /// Resolve the identity from the session's tokens: the ID token must
    /// decode, the access token adds its roles when it decodes; `role_claims`
    /// and `admin_role` are the configured `OIDC_ROLE_CLAIMS` and
    /// `OIDC_ADMIN_ROLE` (`None` when unset).
    pub fn from_session_tokens(
        id_token: &str,
        access_token: &str,
        role_claims: Option<&str>,
        admin_role: Option<&str>,
    ) -> (r: Result<Identity, AppError>)
        ensures
            identity_outcome(
                jwt_decoded(id_token@),
                access_decoded(access_token@),
                opt_text(role_claims),
                opt_text(admin_role),
                r,
            ),
    {
        let id_claims = decode_token(id_token);
        let access_claims = match decode_token(access_token) {
            Ok(c) => Some(c),
            Err(_) => None,
        };
        Identity::from_session_claims(id_claims, access_claims, role_claims, admin_role)
    }
}

} // verus!
