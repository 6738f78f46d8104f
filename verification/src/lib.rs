//! Authentication core for a small web backend: salted password digests,
//! signed claim tokens with an expiry window, and the per-request check
//! that turns a bearer header into verified claims.

mod account;
mod middleware;
mod error;
mod hashing;
mod jwt;
mod upload;

pub use account::{login, register, NewUser, TokenResponse};
pub use middleware::{
    bearer_prefix_ok, bearer_token_of, check_auth_middleware, parse_bearer, RequestContext,
};
pub use error::{ApiResponse, AuthError, MainError};
pub use hashing::{
    digest_matches, digest_parses, digest_verdict, hash_then_verify, secure_hash, verify_hash,
};
pub use jwt::{
    decode_jwt, encode_jwt, expiry_boundary, jwt_of, jwt_payload, token_round_trip, token_verdict,
    verify_token, Claims, DEFAULT_TTL_SECONDS,
};
pub use upload::{effective_file_name, has_image_extension, validate_upload};
