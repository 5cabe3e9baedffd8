//! API authentication: which routes need a token, and whether a request's
//! `Authorization` header carries one of the allowed tokens.
use vstd::prelude::*;
use crate::serving::chat_flow::strip_prefixes;
use crate::settings::ApiAuth;
use crate::text::{chars_of, has_any_prefix, has_prefix, starts_with, starts_with_any, string_views, trim, trim_chars};

verus! {

/// Route prefixes of the API (other paths are the UI's static files).
pub const API_ROUTE_PREFIXES: [&'static str; 5] = ["/v1/", "/api/", "/models/", "/engine/", "/hardware"];

/// API routes the UI needs even when authentication is on.
pub const OPEN_ROUTE_PREFIXES: [&'static str; 10] = [
    "/v1/system/permission",
    "/info",
    "/health",
    "/api/components/",
    "/v1/booster/",
    "/v1/models/installed",
    "/v1/skills/remove",
    "/v1/extensions/remove",
    "/v1/plugins/remove",
    "/v1/mcps/remove",
];

/// The `Authorization` header of a request.
pub enum AuthHeader {
    Missing,
    /// Present but not visible ASCII text.
    Unreadable,
    Value(String),
}

/// Why a request was refused.
#[derive(Debug, Clone, Copy, PartialEq, Eq, Structural)]
pub enum AuthRefusal {
    MissingHeader,
    UnreadableHeader,
    NotBearer,
    UnknownToken,
}

impl AuthRefusal {
    /// The message the refusal is answered with.
    pub fn message(&self) -> (r: String)
        ensures
            r@ == match *self {
                AuthRefusal::MissingHeader => "Missing Authorization header. API Authentication is required."@,
                AuthRefusal::UnreadableHeader => "Invalid Authorization header string."@,
                AuthRefusal::NotBearer => "Invalid Authorization header format. Expected 'Bearer <token>'."@,
                AuthRefusal::UnknownToken => "Invalid Bearer token."@,
            },
    {
        match self {
            AuthRefusal::MissingHeader => "Missing Authorization header. API Authentication is required.".to_owned(),
            AuthRefusal::UnreadableHeader => "Invalid Authorization header string.".to_owned(),
            AuthRefusal::NotBearer => "Invalid Authorization header format. Expected 'Bearer <token>'.".to_owned(),
            AuthRefusal::UnknownToken => "Invalid Bearer token.".to_owned(),
        }
    }
}

/// Does the route need a token (an API route that is not kept open)?
pub open spec fn is_protected(path: Seq<char>) -> bool {
    starts_with_any(path, API_ROUTE_PREFIXES@) && !starts_with_any(path, OPEN_ROUTE_PREFIXES@)
}

/// The token of a bearer header value: the text after every leading `Bearer `,
/// trimmed.
pub open spec fn bearer_token(v: Seq<char>) -> Seq<char> {
    trim(strip_prefixes(v, "Bearer "@))
}

/// The decision on a request: `None` lets it through, `Some(refusal)` refuses it.
pub open spec fn auth_decision(path: Seq<char>, required: bool, tokens: Seq<Seq<char>>, header: AuthHeader) -> Option<AuthRefusal> {
    if !is_protected(path) || !required {
        None
    } else {
        match header {
            AuthHeader::Missing => Some(AuthRefusal::MissingHeader),
            AuthHeader::Unreadable => Some(AuthRefusal::UnreadableHeader),
            AuthHeader::Value(v) => if !starts_with(v@, "Bearer "@) {
                Some(AuthRefusal::NotBearer)
            } else if tokens.contains(bearer_token(v@)) {
                None
            } else {
                Some(AuthRefusal::UnknownToken)
            },
        }
    }
}

/// Decides whether a request may reach the API.
pub fn authorize(path: &str, auth: &ApiAuth, header: &AuthHeader) -> (r: Option<AuthRefusal>)
    ensures
        r == auth_decision(path@, auth.required, string_views(auth.tokens@), *header),
{
    let p = chars_of(path);
    if !has_any_prefix(&p, &API_ROUTE_PREFIXES) || has_any_prefix(&p, &OPEN_ROUTE_PREFIXES) || !auth.required {
        return None;
    }
    match header {
        AuthHeader::Missing => Some(AuthRefusal::MissingHeader),
        AuthHeader::Unreadable => Some(AuthRefusal::UnreadableHeader),
        AuthHeader::Value(v) => {
            let vc = chars_of(v.as_str());
            if !has_prefix(&vc, "Bearer ") {
                return Some(AuthRefusal::NotBearer);
            }
            let b = chars_of("Bearer ");
            let stripped = crate::serving::chat_flow::strip_prefixes_chars(&vc, &b);
            let token = crate::text::string_of(&trim_chars(&stripped));
            if crate::text::strings_contain(auth.tokens.as_slice(), token.as_str()) {
                None
            } else {
                Some(AuthRefusal::UnknownToken)
            }
        },
    }
}

/// With authentication on, a protected route is only reached with a bearer
/// header whose token is one of the allowed tokens; with it off, or on a route
/// that is not protected, every request goes through.
pub proof fn lemma_protected_routes_need_a_token(path: Seq<char>, required: bool, tokens: Seq<Seq<char>>, header: AuthHeader)
    ensures
        (!required || !is_protected(path)) ==> auth_decision(path, required, tokens, header) is None,
        (required && is_protected(path) && auth_decision(path, required, tokens, header) is None) ==> (
            header matches AuthHeader::Value(v) && starts_with(v@, "Bearer "@) && tokens.contains(bearer_token(v@))),
{
}

} // verus!
