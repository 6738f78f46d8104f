use auth_core::{ApiResponse, AuthError, MainError};

#[test]
fn each_failure_maps_to_its_status() {
    assert_eq!(AuthError::HashingError.status_code(), 500);
    assert_eq!(AuthError::VerificationMismatch.status_code(), 401);
    assert_eq!(AuthError::MalformedDigest.status_code(), 400);
    assert_eq!(AuthError::MalformedToken.status_code(), 401);
    assert_eq!(AuthError::TokenExpired.status_code(), 401);
    assert_eq!(AuthError::MissingOrAbsentClaims.status_code(), 403);
}

#[test]
fn rejection_carries_the_status_and_message() {
    let rejection = ApiResponse::rejection(&AuthError::TokenExpired);
    assert_eq!(rejection.status_code, 401);
    assert_eq!(rejection.body, "Authentication token expired");
    let rejection = ApiResponse::rejection(&AuthError::MissingOrAbsentClaims);
    assert_eq!(rejection.status_code, 403);
    assert_eq!(rejection.body, "Wrong Authentication Token.");
}

#[test]
fn api_response_keeps_what_it_is_given() {
    let response = ApiResponse::new(201, "created".to_string());
    assert_eq!(response.status_code, 201);
    assert_eq!(response.body, "created");
}

#[test]
fn main_error_exposes_its_message() {
    let err = MainError { message: "out of memory".to_string() };
    assert_eq!(err.description(), "out of memory");
}
