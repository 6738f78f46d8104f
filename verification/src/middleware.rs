use vstd::prelude::*;
use vstd::string::StrSliceExecFns;

use crate::error::{ApiResponse, AuthError};
use crate::jwt::{jwt_payload, token_verdict, verify_token, Claims};

verus! {

/// Whether a header value has the expected `Bearer <token>` shape.
pub open spec fn bearer_prefix_ok(h: Seq<char>) -> bool {
    &&& h.len() >= 7
    &&& h[0] == 'B'
    &&& h[1] == 'e'
    &&& h[2] == 'a'
    &&& h[3] == 'r'
    &&& h[4] == 'e'
    &&& h[5] == 'r'
    &&& h[6] == ' '
}

/// The token part of a `Bearer <token>` header value.
pub open spec fn bearer_token_of(h: Seq<char>) -> Seq<char> {
    h.skip(7)
}

/// Strip the `Bearer ` prefix from an `Authorization` header value,
/// returning the token it carries; fails exactly when the value does
/// not start with that prefix.
pub fn parse_bearer(header: &str) -> (r: Option<String>)
    ensures
        (r is Some) == bearer_prefix_ok(header@),
        r matches Some(t) ==> t@ == bearer_token_of(header@),
{
    let n = header.unicode_len();
    if n < 7 {
        return None;
    }
    if header.get_char(0) != 'B' || header.get_char(1) != 'e' || header.get_char(2) != 'a'
        || header.get_char(3) != 'r' || header.get_char(4) != 'e' || header.get_char(5) != 'r'
        || header.get_char(6) != ' ' {
        return None;
    }
    let token = header.substring_char(7, n);
    proof {
        assert(header@.subrange(7, header@.len() as int) =~= header@.skip(7));
    }
    Some(token.to_owned())
}

/// The per-request context that the middleware populates and handlers
/// read: an explicit stand-in for a request's extension map.
pub struct RequestContext {
    pub claims: Option<Claims>,
}

impl RequestContext {
    /// A fresh context, before any middleware has run.
    pub fn new() -> (r: RequestContext)
        ensures
            r.claims is None,
    {
        RequestContext { claims: None }
    }
}

impl Claims {
    /// Request-scoped accessor: the claims the middleware attached to
    /// this request, or a fail-closed error when the middleware did not
    /// run.
    pub fn from_request(ctx: &RequestContext) -> (r: Result<Claims, AuthError>)
        ensures
            ctx.claims matches Some(c) ==> (r matches Ok(rc) && rc == c),
            ctx.claims is None ==> r == Err::<Claims, AuthError>(AuthError::MissingOrAbsentClaims),
    {
        match &ctx.claims {
            Some(c) => Ok(c.clone()),
            None => Err(AuthError::MissingOrAbsentClaims),
        }
    }
}

/// The check run on one protected request: inspect the `Authorization`
/// header, verify the bearer token at time `now` under `secret`, and
/// either attach the decoded claims to the request context or
/// short-circuit with a rejection, leaving the context untouched.
///
/// A missing header is rejected 401 before any token parsing; a header
/// without the `Bearer ` shape is rejected 400; a failing token is
/// rejected with the status its failure maps to (401 for an expired or
/// invalid token).
pub fn check_auth_middleware(
    ctx: &mut RequestContext,
    auth_header: Option<&str>,
    secret: &str,
    now: u64,
) -> (r: Result<(), ApiResponse>)
    ensures
        auth_header is None ==> (r matches Err(a) && a.status_code == 401 && a.body@
            == "Unauthorized"@ && *final(ctx) == *old(ctx)),
        auth_header matches Some(h) ==> if !bearer_prefix_ok(h@) {
            r matches Err(a) && a.status_code == 400 && a.body@ == "Bad Request"@ && *final(ctx)
                == *old(ctx)
        } else {
            match token_verdict(jwt_payload(bearer_token_of(h@), secret@), now as int) {
                Ok(p) => r matches Ok(u) && final(ctx).claims matches Some(c) && c.exp == p.0
                    && c.iat == p.1 && c.email@ == p.2 && c.id == p.3,
                Err(e) => r matches Err(a) && a.status_code == e.spec_status_code() && a.body@
                    == e.spec_message() && *final(ctx) == *old(ctx),
            }
        },
{
    match auth_header {
        None => Err(ApiResponse::new(401, "Unauthorized".to_owned())),
        Some(header) => match parse_bearer(header) {
            None => Err(ApiResponse::new(400, "Bad Request".to_owned())),
            Some(token) => match verify_token(token.as_str(), secret, now) {
                Ok(claims) => {
                    ctx.claims = Some(claims);
                    Ok(())
                },
                Err(e) => Err(ApiResponse::rejection(&e)),
            },
        },
    }
}

} // verus!
