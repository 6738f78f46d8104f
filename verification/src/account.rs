use vstd::prelude::*;
use vstd::string::StringExecFns;

use crate::error::{ApiResponse, AuthError};
use crate::hashing::{digest_matches, digest_parses, digest_verdict, secure_hash, verify_hash};
use crate::jwt::{encode_jwt, jwt_of, jwt_payload};

verus! {

/// What a successful login responds with.
#[derive(Debug)]
pub struct TokenResponse {
    pub access_token: String,
    pub token_type: String,
}

/// A user record ready to be stored: the plaintext password replaced by
/// its digest.
#[derive(Debug)]
pub struct NewUser {
    pub name: String,
    pub email: String,
    pub password_digest: String,
}

/// The compute part of registration: hash the password under a fresh
/// salt, leaving a record whose digest verifies against the password.
/// Fails with a 500 response, naming the hashing failure, exactly when
/// hashing itself fails.
pub fn register(name: String, email: String, password: String) -> (r: Result<NewUser, ApiResponse>)
    ensures
        r matches Ok(u) ==> u.name@ == name@ && u.email@ == email@ && digest_parses(
            u.password_digest@,
        ) && digest_matches(u.password_digest@, password@),
        r matches Err(a) ==> a.status_code == 500 && "Hashing Failed. Details: "@.is_prefix_of(
            a.body@,
        ),
{
    match secure_hash(password) {
        Ok(digest) => Ok(NewUser { name, email, password_digest: digest }),
        Err(err) => {
            let body = "Hashing Failed. Details: ".to_owned().concat(err.message.as_str());
            proof {
                assert("Hashing Failed. Details: "@.is_prefix_of(body@)) by {
                    assert(body@.subrange(0, "Hashing Failed. Details: "@.len() as int)
                        =~= "Hashing Failed. Details: "@);
                }
            }
            Err(ApiResponse::new(500, body))
        },
    }
}

/// The compute part of login, once the caller has fetched the user's
/// stored record: verify the password against the stored digest and, on
/// a match, issue a token for the user, valid from `now` for `ttl`
/// seconds. A mismatch is rejected 401; a digest that does not parse is
/// rejected with the malformed-digest status; a matching password is
/// always answered with a token.
pub fn login(
    email: String,
    user_id: i32,
    password: String,
    password_digest: &str,
    now: u64,
    ttl: u64,
    secret: &str,
) -> (r: Result<TokenResponse, ApiResponse>)
    requires
        now + ttl <= u64::MAX,
    ensures
        digest_verdict(password_digest@, password@) matches Err(e) ==> (r matches Err(a)
            && a.status_code == e.spec_status_code() && a.body@ == e.spec_message()),
        digest_verdict(password_digest@, password@) == Ok::<bool, AuthError>(false) ==> (r matches
            Err(a) && a.status_code == 401 && a.body@
            == AuthError::VerificationMismatch.spec_message()),
        digest_verdict(password_digest@, password@) == Ok::<bool, AuthError>(true) ==> (r matches
            Ok(t) && t.access_token@ == jwt_of(
            now + ttl,
            now as int,
            email@,
            user_id as int,
            secret@,
        ) && t.token_type@ == "bearer"@ && jwt_payload(t.access_token@, secret@) == Some(
            ((now + ttl) as int, now as int, email@, user_id as int),
        )),
{
    match verify_hash(password, password_digest) {
        Err(e) => Err(ApiResponse::rejection(&e)),
        Ok(false) => Err(ApiResponse::rejection(&AuthError::VerificationMismatch)),
        Ok(true) => match encode_jwt(email, user_id, now, ttl, secret) {
            Ok(token) => Ok(
                TokenResponse { access_token: token, token_type: "bearer".to_owned() },
            ),
            Err(err) => Err(ApiResponse::new(500, err.message)),
        },
    }
}

} // verus!
