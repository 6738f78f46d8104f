use vstd::prelude::*;

verus! {

/// Error carrying a human-readable message, used by the hashing layer.
#[derive(Debug)]
pub struct MainError {
    pub message: String,
}

impl MainError {
    pub fn description(&self) -> (r: &String)
        ensures
            r@ == self.message@,
    {
        &self.message
    }
}

/// The failures the authentication core can produce, each mapped to a
/// fixed HTTP status at the boundary.
#[derive(PartialEq, Eq, Structural, Clone, Copy, Debug)]
pub enum AuthError {
    /// Environment or resource failure while computing a digest.
    HashingError,
    /// The password does not match the stored digest.
    VerificationMismatch,
    /// The stored digest string cannot be parsed.
    MalformedDigest,
    /// The token's signature is invalid or its payload does not carry
    /// the expected claims.
    MalformedToken,
    /// The token's expiry instant lies strictly before the current time.
    TokenExpired,
    /// A protected handler ran without the middleware attaching claims
    /// first.
    MissingOrAbsentClaims,
}

impl AuthError {
    /// The HTTP status each failure is surfaced as.
    pub open spec fn spec_status_code(self) -> u16 {
        match self {
            AuthError::HashingError => 500,
            AuthError::VerificationMismatch => 401,
            AuthError::MalformedDigest => 400,
            AuthError::MalformedToken => 401,
            AuthError::TokenExpired => 401,
            AuthError::MissingOrAbsentClaims => 403,
        }
    }

    pub fn status_code(&self) -> (r: u16)
        ensures
            r == self.spec_status_code(),
    {
        match self {
            AuthError::HashingError => 500,
            AuthError::VerificationMismatch => 401,
            AuthError::MalformedDigest => 400,
            AuthError::MalformedToken => 401,
            AuthError::TokenExpired => 401,
            AuthError::MissingOrAbsentClaims => 403,
        }
    }

    /// The message each failure is surfaced with.
    pub open spec fn spec_message(self) -> Seq<char> {
        match self {
            AuthError::HashingError => "Hashing Failed"@,
            AuthError::VerificationMismatch => "Unauthorized. Wrong Password"@,
            AuthError::MalformedDigest => "Malformed password digest"@,
            AuthError::MalformedToken => "Invalid authentication token"@,
            AuthError::TokenExpired => "Authentication token expired"@,
            AuthError::MissingOrAbsentClaims => "Wrong Authentication Token."@,
        }
    }

    pub fn message(&self) -> (r: &'static str)
        ensures
            r@ == self.spec_message(),
    {
        match self {
            AuthError::HashingError => "Hashing Failed",
            AuthError::VerificationMismatch => "Unauthorized. Wrong Password",
            AuthError::MalformedDigest => "Malformed password digest",
            AuthError::MalformedToken => "Invalid authentication token",
            AuthError::TokenExpired => "Authentication token expired",
            AuthError::MissingOrAbsentClaims => "Wrong Authentication Token.",
        }
    }
}

/// The `{status_code, message}` shape every failure is converted to at
/// the HTTP boundary.
#[derive(Debug)]
pub struct ApiResponse {
    pub status_code: u16,
    pub body: String,
}

impl ApiResponse {
    pub fn new(status_code: u16, body: String) -> (r: ApiResponse)
        ensures
            r.status_code == status_code,
            r.body@ == body@,
    {
        ApiResponse { status_code, body }
    }

    /// The uniform rejection for an authentication failure.
    pub fn rejection(err: &AuthError) -> (r: ApiResponse)
        ensures
            r.status_code == err.spec_status_code(),
            r.body@ == err.spec_message(),
    {
        let status = err.status_code();
        let body = err.message().to_owned();
        ApiResponse { status_code: status, body }
    }
}

} // verus!
