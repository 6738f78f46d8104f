use vstd::prelude::*;

use crate::error::{AuthError, MainError};

verus! {

/// Details carried in a signed token.
#[derive(Debug)]
pub struct Claims {
    /// Expiration time as a unix timestamp in seconds.
    pub exp: u64,
    /// Issued-at as a unix timestamp in seconds.
    pub iat: u64,
    /// Email of the user.
    pub email: String,
    /// Id of the user.
    pub id: i32,
}

/// Tokens are issued with a day's validity by default.
pub const DEFAULT_TTL_SECONDS: u64 = 24 * 60 * 60;

impl Clone for Claims {
    fn clone(&self) -> (r: Claims)
        ensures
            r == *self,
    {
        Claims { exp: self.exp, iat: self.iat, email: self.email.clone(), id: self.id }
    }
}

/// The compact token that signing the claims `{exp, iat, email, id}`
/// with `key` under HMAC-SHA256 produces: a function of the claims and
/// the key alone.
pub uninterp spec fn jwt_of(exp: int, iat: int, email: Seq<char>, id: int, key: Seq<char>) -> Seq<char>;

/// The claims `(exp, iat, email, id)` that decoding `token` under `key`
/// uncovers, or `None` when the token is not well-formed or its
/// signature does not check out under `key`. A function of the token
/// and the key alone.
pub uninterp spec fn jwt_payload(token: Seq<char>, key: Seq<char>) -> Option<(int, int, Seq<char>, int)>;

/// Relies on jsonwebtoken's `encode` with the default header (HMAC-SHA256):
/// the result is a deterministic signature over the four claims, and
/// `decode` under the same secret uncovers exactly those claims. The call
/// cannot fail: HMAC signing always succeeds, the key and the header
/// share the HMAC family, and serializing a string-keyed map cannot
/// error, so every failure path of `encode` is dead here.
#[verifier::external_body]
fn jwt_sign(exp: u64, iat: u64, email: &str, id: i32, secret: &str) -> (r: Result<String, String>)
    ensures
        r is Ok,
        r matches Ok(t) ==> t@ == jwt_of(exp as int, iat as int, email@, id as int, secret@),
        r matches Ok(t) ==> jwt_payload(t@, secret@) == Some(
            (exp as int, iat as int, email@, id as int),
        ),
{
    let mut claims = serde_json::Map::new();
    claims.insert("exp".to_owned(), serde_json::Value::from(exp));
    claims.insert("iat".to_owned(), serde_json::Value::from(iat));
    claims.insert("email".to_owned(), serde_json::Value::from(email));
    claims.insert("id".to_owned(), serde_json::Value::from(id));
    let key = jsonwebtoken::EncodingKey::from_secret(secret.as_bytes());
    let header = jsonwebtoken::Header::default();
    match jsonwebtoken::encode(&header, &serde_json::Value::Object(claims), &key) {
        Ok(token) => Ok(token),
        Err(err) => Err(err.to_string()),
    }
}

/// Relies on jsonwebtoken's `decode` restricted to HMAC-SHA256, with the
/// expiry check turned off so that the result depends on the token and
/// the secret alone; the caller enforces expiry itself. Returns the
/// embedded `(exp, iat, email, id)` when the signature checks out and
/// the payload carries all four claims with these types.
#[verifier::external_body]
fn jwt_decode_raw(token: &str, secret: &str) -> (r: Option<(u64, u64, String, i64)>)
    ensures
        (r is Some) == (jwt_payload(token@, secret@) is Some),
        r matches Some(p) ==> jwt_payload(token@, secret@) == Some(
            (p.0 as int, p.1 as int, p.2@, p.3 as int),
        ),
{
    let mut validation = jsonwebtoken::Validation::new(jsonwebtoken::Algorithm::HS256);
    validation.validate_exp = false;
    validation.required_spec_claims.clear();
    let key = jsonwebtoken::DecodingKey::from_secret(secret.as_bytes());
    let data = match jsonwebtoken::decode::<serde_json::Value>(token, &key, &validation) {
        Ok(data) => data,
        Err(_) => return None,
    };
    let exp = data.claims.get("exp")?.as_u64()?;
    let iat = data.claims.get("iat")?.as_u64()?;
    let email = data.claims.get("email")?.as_str()?.to_owned();
    let id = data.claims.get("id")?.as_i64()?;
    Some((exp, iat, email, id))
}

/// What verifying a token whose decoded payload is `payload` returns at
/// time `now`: malformed when nothing decodes or the id does not fit,
/// expired when `now` lies strictly after the expiry instant, and the
/// payload itself otherwise. A token is valid through its expiry
/// instant, inclusive.
pub open spec fn token_verdict(payload: Option<(int, int, Seq<char>, int)>, now: int) -> Result<
    (int, int, Seq<char>, int),
    AuthError,
> {
    match payload {
        Option::None => Err(AuthError::MalformedToken),
        Option::Some(p) => if p.3 < i32::MIN as int || p.3 > i32::MAX as int {
            Err(AuthError::MalformedToken)
        } else if now > p.0 {
            Err(AuthError::TokenExpired)
        } else {
            Ok(p)
        },
    }
}

/// Encode the provided email and id, issued at `now` and expiring at
/// `now + ttl`, into a token signed with `secret`. Signing with an HMAC
/// key cannot fail, so a token is always returned.
pub fn encode_jwt(email: String, id: i32, now: u64, ttl: u64, secret: &str) -> (r: Result<
    String,
    MainError,
>)
    requires
        now + ttl <= u64::MAX,
    ensures
        r is Ok,
        r matches Ok(t) ==> t@ == jwt_of(
            now + ttl,
            now as int,
            email@,
            id as int,
            secret@,
        ),
        r matches Ok(t) ==> jwt_payload(t@, secret@) == Some(
            ((now + ttl) as int, now as int, email@, id as int),
        ),
{
    let exp: u64 = now + ttl;
    match jwt_sign(exp, now, email.as_str(), id, secret) {
        Ok(token) => Ok(token),
        Err(message) => Err(MainError { message }),
    }
}

/// Decode a token and check its signature and shape under `secret`,
/// without enforcing expiry. Fails exactly when nothing decodes under
/// `secret` or the embedded id does not fit an `i32`.
pub fn decode_jwt(jwt_token: &str, secret: &str) -> (r: Result<Claims, AuthError>)
    ensures
        jwt_payload(jwt_token@, secret@) is None ==> r == Err::<Claims, AuthError>(
            AuthError::MalformedToken,
        ),
        jwt_payload(jwt_token@, secret@) matches Some(p) ==> {
            &&& (p.3 < i32::MIN as int || p.3 > i32::MAX as int) ==> r == Err::<
                Claims,
                AuthError,
            >(AuthError::MalformedToken)
            &&& (i32::MIN as int <= p.3 <= i32::MAX as int) ==> (r matches Ok(c) && c.exp == p.0
                && c.iat == p.1 && c.email@ == p.2 && c.id == p.3)
        },
{
    match jwt_decode_raw(jwt_token, secret) {
        None => Err(AuthError::MalformedToken),
        Some((exp, iat, email, id)) => {
            if id < i32::MIN as i64 || id > i32::MAX as i64 {
                Err(AuthError::MalformedToken)
            } else {
                Ok(Claims { exp, iat, email, id: id as i32 })
            }
        },
    }
}

/// Decode a token under `secret` and enforce expiry at time `now`. The
/// result is exactly the verdict on the token's payload: the embedded
/// claims when the signature checks out, all four claims are present,
/// the id fits, and `now` does not lie strictly after the expiry.
pub fn verify_token(jwt_token: &str, secret: &str, now: u64) -> (r: Result<Claims, AuthError>)
    ensures
        r matches Ok(c) ==> token_verdict(jwt_payload(jwt_token@, secret@), now as int) matches Ok(
            p,
        ) && c.exp == p.0 && c.iat == p.1 && c.email@ == p.2 && c.id == p.3,
        r matches Err(e) ==> token_verdict(jwt_payload(jwt_token@, secret@), now as int) == Err::<
            (int, int, Seq<char>, int),
            AuthError,
        >(e),
{
    match decode_jwt(jwt_token, secret) {
        Err(e) => Err(e),
        Ok(claims) => {
            if now > claims.exp {
                Err(AuthError::TokenExpired)
            } else {
                Ok(claims)
            }
        },
    }
}

/// Round trip: a token carrying claims `(exp, iat, email, id)` with an
/// id in range and `iat <= exp` is accepted when verified at
/// `now == iat`, and the verdict returns those claims unchanged.
/// `encode_jwt` guarantees the payload this lemma takes of every token
/// it issues.
pub proof fn token_round_trip(
    token: Seq<char>,
    key: Seq<char>,
    exp: int,
    iat: int,
    email: Seq<char>,
    id: int,
)
    requires
        jwt_payload(token, key) == Some((exp, iat, email, id)),
        i32::MIN as int <= id <= i32::MAX as int,
        iat <= exp,
    ensures
        token_verdict(jwt_payload(token, key), iat) == Ok::<(int, int, Seq<char>, int), AuthError>(
            (exp, iat, email, id),
        ),
{
}

/// Expiry is inclusive: a well-shaped payload is rejected as expired
/// exactly when `now` lies strictly after `exp`, and at `now == exp` it
/// is still accepted unchanged.
pub proof fn expiry_boundary(exp: int, iat: int, email: Seq<char>, id: int, now: int)
    requires
        i32::MIN as int <= id <= i32::MAX as int,
    ensures
        now > exp ==> token_verdict(Some((exp, iat, email, id)), now) == Err::<
            (int, int, Seq<char>, int),
            AuthError,
        >(AuthError::TokenExpired),
        now <= exp ==> token_verdict(Some((exp, iat, email, id)), now) == Ok::<
            (int, int, Seq<char>, int),
            AuthError,
        >((exp, iat, email, id)),
{
}

} // verus!
