//! Caller identities: where the credential of a connection is read from,
//! roles, tenant impersonation and access to a plant.

use crate::calendar::SECONDS_PER_HOUR;
use crate::text::{chars_of, find_from, find_from_exec, has_prefix, occurs_at_exec, same_text, slice_string};
use vstd::prelude::*;

verus! {

/// Settings for issuing and checking access tokens.
#[derive(Clone, Debug)]
pub struct AuthConfig {
    pub jwt_secret: String,
    /// Hours for which an issued token stays valid.
    pub jwt_exp_hours: i64,
}

impl AuthConfig {
    /// Expiry instant of a token issued at `now` (seconds since the Unix
    /// epoch); `None` when it does not fit in an `i64`.
    pub fn expires_at(&self, now: i64) -> (r: Option<i64>)
        ensures
            ({
                let e = now + self.jwt_exp_hours * SECONDS_PER_HOUR;
                if i64::MIN <= self.jwt_exp_hours * SECONDS_PER_HOUR <= i64::MAX && i64::MIN
                    <= e <= i64::MAX {
                    r == Some(e as i64)
                } else {
                    r is None
                }
            }),
    {
        match self.jwt_exp_hours.checked_mul(SECONDS_PER_HOUR) {
            Some(d) => now.checked_add(d),
            None => None,
        }
    }
}

/// Credentials sent to log in.
#[derive(Clone, Debug)]
pub struct LoginRequest {
    pub email: String,
    pub sifre: String,
}

/// What a caller may do.
#[derive(Clone, Copy, Debug, PartialEq, Eq, Structural)]
pub enum Role {
    /// May see every tenant and act for any of them.
    Admin,
    /// Sees its own tenant only.
    Member,
}

/// The role that a role name stands for: only `admin` is privileged.
pub open spec fn role_of_name(s: Seq<char>) -> Role {
    if s == "admin"@ {
        Role::Admin
    } else {
        Role::Member
    }
}

impl Role {
    pub fn from_name(s: &str) -> (r: Role)
        ensures
            r == role_of_name(s@),
    {
        if same_text(s, "admin") {
            Role::Admin
        } else {
            Role::Member
        }
    }
}

/// Who a caller is, as the identity resolver reports it.
#[derive(Clone, Copy, Debug, PartialEq, Eq, Structural)]
pub struct Identity {
    pub caller: u128,
    pub tenant: u128,
    pub role: Role,
}

/// The tenant whose data a caller sees: the directive's tenant when a
/// privileged caller gives one, else the caller's own.
pub open spec fn effective_tenant_of(id: Identity, directive: Option<u128>) -> u128 {
    match directive {
        Some(t) => if id.role == Role::Admin {
            t
        } else {
            id.tenant
        },
        None => id.tenant,
    }
}

pub fn effective_tenant(id: &Identity, directive: Option<u128>) -> (r: u128)
    ensures
        r == effective_tenant_of(*id, directive),
{
    match (id.role, directive) {
        (Role::Admin, Some(t)) => t,
        _ => id.tenant,
    }
}

/// What `parse_uuid` returns: the 128-bit value of a UUID text, or `None`
/// where the text is no UUID.
pub uninterp spec fn uuid_value(s: Seq<char>) -> Option<u128>;

/// Relies on uuid's `Uuid::parse_str`, and on `Uuid::as_u128` for the value.
#[verifier::external_body]
fn parse_uuid(s: &str) -> (r: Option<u128>)
    ensures
        r == uuid_value(s@),
{
    match uuid::Uuid::parse_str(s) {
        Ok(u) => Some(u.as_u128()),
        Err(_) => None,
    }
}

/// The tenant named by an impersonation directive, if it names one.
pub fn impersonation_target(directive: Option<&str>) -> (r: Option<u128>)
    ensures
        r == match directive {
            Some(d) => uuid_value(d@),
            None => None,
        },
{
    match directive {
        Some(d) => parse_uuid(d),
        None => None,
    }
}

/// The tenant of a new session or request: impersonation applies only to a
/// privileged caller, and is decided here once.
pub fn session_tenant(id: &Identity, directive: Option<&str>) -> (r: u128)
    ensures
        r == effective_tenant_of(
            *id,
            match directive {
                Some(d) => uuid_value(d@),
                None => None,
            },
        ),
{
    match id.role {
        Role::Admin => effective_tenant(id, impersonation_target(directive)),
        Role::Member => id.tenant,
    }
}

/// A caller may act on a plant when privileged or when the plant belongs to
/// the caller's tenant.
pub fn may_access_plant(id: &Identity, owner: Option<u128>) -> (r: bool)
    ensures
        r == (id.role == Role::Admin || owner == Some(id.tenant)),
{
    match id.role {
        Role::Admin => true,
        Role::Member => match owner {
            Some(o) => o == id.tenant,
            None => false,
        },
    }
}

/// Where a credential was found.
#[derive(Clone, Copy, Debug, PartialEq, Eq, Structural)]
pub enum CredentialSource {
    /// An `Authorization: Bearer` header.
    Header,
    /// A `token=` query parameter.
    Query,
}

/// A bearer credential and where it came from.
#[derive(Clone, Debug)]
pub struct Credential {
    pub token: String,
    pub source: CredentialSource,
}

/// Why no credential was found.
#[derive(Clone, Copy, Debug, PartialEq, Eq, Structural)]
pub enum CredentialError {
    Missing,
}

/// The token of an `Authorization` header of the form `Bearer <token>`.
pub open spec fn bearer_token_of(h: Seq<char>) -> Option<Seq<char>> {
    if has_prefix(h, "Bearer "@) {
        Some(h.subrange("Bearer "@.len() as int, h.len() as int))
    } else {
        None
    }
}

/// The text after the first `token=` of a query, up to the next `token=`.
pub open spec fn query_segment_of(q: Seq<char>) -> Option<Seq<char>> {
    match find_from(q, "token="@, 0) {
        None => None,
        Some(i) => {
            let st = i + "token="@.len();
            match find_from(q, "token="@, st) {
                Some(j) => Some(q.subrange(st, j)),
                None => Some(q.subrange(st, q.len() as int)),
            }
        },
    }
}

pub fn bearer_token(header: &str) -> (r: Option<String>)
    ensures
        match bearer_token_of(header@) {
            Some(t) => r matches Some(x) && x@ == t,
            None => r is None,
        },
{
    let h = chars_of(header);
    let prefix = chars_of("Bearer ");
    if occurs_at_exec(&h, &prefix, 0) {
        Some(slice_string(header, prefix.len(), h.len()))
    } else {
        None
    }
}

pub fn query_token_segment(query: &str) -> (r: Option<String>)
    ensures
        match query_segment_of(query@) {
            Some(t) => r matches Some(x) && x@ == t,
            None => r is None,
        },
{
    let q = chars_of(query);
    let pat = chars_of("token=");
    let qn = q.len();
    match find_from_exec(&q, &pat, 0) {
        None => None,
        Some(i) => {
            assert(i + pat@.len() <= qn);
            let st = i + pat.len();
            match find_from_exec(&q, &pat, st) {
                Some(j) => Some(slice_string(query, st, j)),
                None => Some(slice_string(query, st, qn)),
            }
        },
    }
}

/// The characters of an optional text.
pub open spec fn text_view(t: Option<String>) -> Option<Seq<char>> {
    match t {
        Some(x) => Some(x@),
        None => None,
    }
}

/// What `url_decode` returns: the percent-decoded text, or `None` where the
/// decoded bytes are no UTF-8.
pub uninterp spec fn url_decoded(s: Seq<char>) -> Option<Seq<char>>;

/// Relies on urlencoding's `decode`, which turns each `%XX` into its byte, keeps
/// every other character, and returns its input unchanged when it holds no `%`.
#[verifier::external_body]
fn url_decode(s: &str) -> (r: Option<String>)
    ensures
        text_view(r) == url_decoded(s@),
        !s@.contains('%') ==> text_view(r) == Some(s@),
{
    match urlencoding::decode(s) {
        Ok(t) => Some(t.into_owned()),
        Err(_) => None,
    }
}

/// `r` is the credential chosen from a header token and a decoded query token:
/// the header wins, and with neither the credential is missing.
pub open spec fn chosen_credential(
    r: Result<Credential, CredentialError>,
    header_token: Option<Seq<char>>,
    query_token: Option<Seq<char>>,
) -> bool {
    match header_token {
        Some(t) => r matches Ok(c) && c.token@ == t && c.source == CredentialSource::Header,
        None => match query_token {
            Some(t) => r matches Ok(c) && c.token@ == t && c.source == CredentialSource::Query,
            None => r == Err::<Credential, CredentialError>(CredentialError::Missing),
        },
    }
}

/// Picks the credential of a connection from the token of its header and the
/// decoded token of its query.
pub fn choose_credential(header_token: Option<String>, query_token: Option<String>) -> (r: Result<
    Credential,
    CredentialError,
>)
    ensures
        chosen_credential(
            r,
            match header_token {
                Some(t) => Some(t@),
                None => None,
            },
            match query_token {
                Some(t) => Some(t@),
                None => None,
            },
        ),
{
    match header_token {
        Some(t) => Ok(Credential { token: t, source: CredentialSource::Header }),
        None => match query_token {
            Some(t) => Ok(Credential { token: t, source: CredentialSource::Query }),
            None => Err(CredentialError::Missing),
        },
    }
}

/// Reads the credential of a connection: an `Authorization: Bearer` header
/// first, else a percent-encoded `token=` query parameter.
pub fn extract_credential(authorization: Option<&str>, query: &str) -> (r: Result<
    Credential,
    CredentialError,
>)
    ensures
        chosen_credential(
            r,
            match authorization {
                Some(h) => bearer_token_of(h@),
                None => None,
            },
            match query_segment_of(query@) {
                Some(s) => url_decoded(s),
                None => None,
            },
        ),
{
    let header_token = match authorization {
        Some(h) => bearer_token(h),
        None => None,
    };
    if header_token.is_some() {
        return choose_credential(header_token, None);
    }
    let query_token = match query_token_segment(query) {
        Some(s) => url_decode(s.as_str()),
        None => None,
    };
    choose_credential(header_token, query_token)
}

} // verus!
