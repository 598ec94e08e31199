//! The request gate in front of protected routes: a bearer access token
//! must verify, then the caller's entitlement must resolve; only then does
//! the request go on, carrying both. Any failure stops the request with no
//! identity attached.
use vstd::prelude::*;
use vstd::string::*;
use crate::claims::{Claims, UserData, claims_from_text};
use crate::flow::StoreError;
use crate::model::SubscriptionData;
use crate::text::{chars_of, text_at};
use crate::token::{AuthConfig, TokenError};

verus! {

/// Why a protected request was refused.
#[derive(Clone, Copy, Debug, PartialEq, Eq, Structural)]
pub enum GateRejection {
    /// No `Authorization: Bearer ...` header.
    MissingToken,
    /// The bearer token is expired, malformed or signed with another key.
    InvalidToken,
    /// The caller's entitlement could not be resolved.
    EntitlementUnavailable,
}

impl GateRejection {
    pub open spec fn spec_status(&self) -> u16 {
        match self {
            GateRejection::MissingToken => 401,
            GateRejection::InvalidToken => 401,
            GateRejection::EntitlementUnavailable => 500,
        }
    }

    /// The HTTP status the request is answered with.
    pub fn status(&self) -> (r: u16)
        ensures
            r == self.spec_status(),
    {
        match self {
            GateRejection::MissingToken => 401,
            GateRejection::InvalidToken => 401,
            GateRejection::EntitlementUnavailable => 500,
        }
    }

    pub open spec fn spec_message(&self) -> &'static str {
        match self {
            GateRejection::MissingToken => "Missing Bearer token",
            GateRejection::InvalidToken => "Invalid or expired token",
            GateRejection::EntitlementUnavailable => "Entitlement lookup failed",
        }
    }

    /// The message the request is answered with.
    pub fn message(&self) -> (r: &'static str)
        ensures
            r == self.spec_message(),
    {
        match self {
            GateRejection::MissingToken => "Missing Bearer token",
            GateRejection::InvalidToken => "Invalid or expired token",
            GateRejection::EntitlementUnavailable => "Entitlement lookup failed",
        }
    }
}

/// What an admitted request carries on to its handler.
#[derive(Clone, Copy, Debug, PartialEq, Eq, Structural)]
pub struct RequestContext {
    pub user: UserData,
    pub subscription: SubscriptionData,
}

pub open spec fn bearer_prefix() -> Seq<char> {
    "Bearer "@
}

/// The token of an `Authorization` header value of the form `Bearer <token>`.
pub open spec fn bearer_of(header: Seq<char>) -> Option<Seq<char>> {
    if header.len() >= 7 && header.subrange(0, 7) == bearer_prefix() {
        Some(header.subrange(7, header.len() as int))
    } else {
        None
    }
}

/// Extracts the bearer token from an `Authorization` header value.
pub fn bearer_token(header: &str) -> (r: Option<String>)
    ensures
        match r {
            Some(t) => bearer_of(header@) == Some(t@),
            None => bearer_of(header@) is None,
        },
{
    proof {
        reveal_strlit("Bearer ");
    }
    let v = chars_of(header);
    if !text_at(&v, 0, "Bearer ") {
        return None;
    }
    Some(header.substring_char(7, v.len()).to_owned())
}

/// The caller's identity, given the verification of the bearer token.
pub fn identity_from(verified: Result<Claims, TokenError>) -> (r: Result<UserData, GateRejection>)
    ensures
        match verified {
            Ok(c) => r == Ok::<UserData, GateRejection>(c.user),
            Err(_) => r == Err::<UserData, GateRejection>(GateRejection::InvalidToken),
        },
{
    match verified {
        Ok(c) => Ok(c.user),
        Err(_) => Err(GateRejection::InvalidToken),
    }
}

/// First check on a protected request: the bearer token must be present and verify as
/// an access token. Token verification is local and touches no store.
pub fn gate_identify(config: &AuthConfig, authorization: Option<String>) -> (r: Result<
    UserData,
    GateRejection,
>)
    ensures
        (authorization is None || bearer_of(authorization->0@) is None) ==> r == Err::<
            UserData,
            GateRejection,
        >(GateRejection::MissingToken),
        authorization is Some && bearer_of(authorization->0@) is Some ==> match r {
            Ok(u) => exists|text: Seq<char>, c: Claims| claims_from_text(text) == Some(c) && c.user == u,
            Err(e) => e == GateRejection::InvalidToken,
        },
{
    let header = match authorization {
        Some(h) => h,
        None => {
            return Err(GateRejection::MissingToken);
        },
    };
    let token = match bearer_token(header.as_str()) {
        Some(t) => t,
        None => {
            return Err(GateRejection::MissingToken);
        },
    };
    identity_from(config.verify_access(token.as_str()))
}

/// Second check on a protected request: the caller's entitlement must resolve. The
/// request goes on only with both identity and entitlement attached.
pub fn gate_admit(user: UserData, entitlement: Result<SubscriptionData, StoreError>) -> (r: Result<
    RequestContext,
    GateRejection,
>)
    ensures
        match entitlement {
            Ok(s) => r == Ok::<RequestContext, GateRejection>(RequestContext { user, subscription: s }),
            Err(_) => r == Err::<RequestContext, GateRejection>(GateRejection::EntitlementUnavailable),
        },
{
    match entitlement {
        Ok(subscription) => Ok(RequestContext { user, subscription }),
        Err(_) => Err(GateRejection::EntitlementUnavailable),
    }
}

} // verus!
