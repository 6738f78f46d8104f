use auth_core::{
    check_auth_middleware, encode_jwt, parse_bearer, AuthError, Claims, RequestContext,
};

#[test]
fn parse_bearer_strips_the_prefix() {
    assert_eq!(parse_bearer("Bearer abc.def.ghi").unwrap(), "abc.def.ghi");
    assert_eq!(parse_bearer("Bearer ").unwrap(), "");
}

#[test]
fn parse_bearer_rejects_other_shapes() {
    assert!(parse_bearer("bearer abc").is_none());
    assert!(parse_bearer("Token abc").is_none());
    assert!(parse_bearer("Bearer").is_none());
    assert!(parse_bearer("").is_none());
}

#[test]
fn missing_header_is_rejected_immediately_with_401() {
    let mut ctx = RequestContext::new();
    let rejection = check_auth_middleware(&mut ctx, None, "secret", 1_000).unwrap_err();
    assert_eq!(rejection.status_code, 401);
    assert_eq!(rejection.body, "Unauthorized");
    // No claims were attached, so a handler that runs anyway fails closed.
    assert_eq!(
        Claims::from_request(&ctx).unwrap_err(),
        AuthError::MissingOrAbsentClaims
    );
}

#[test]
fn header_without_bearer_shape_is_rejected_with_400() {
    let mut ctx = RequestContext::new();
    let rejection =
        check_auth_middleware(&mut ctx, Some("Token abc"), "secret", 1_000).unwrap_err();
    assert_eq!(rejection.status_code, 400);
    assert_eq!(rejection.body, "Bad Request");
    assert!(Claims::from_request(&ctx).is_err());
}

#[test]
fn expired_bearer_token_is_rejected_with_401_and_no_claims_attach() {
    let token =
        encode_jwt("user@example.com".to_string(), 7, 1_000, 10, "secret").expect("signing");
    let header = format!("Bearer {token}");
    let mut ctx = RequestContext::new();
    let rejection =
        check_auth_middleware(&mut ctx, Some(&header), "secret", 2_000).unwrap_err();
    assert_eq!(rejection.status_code, 401);
    assert_eq!(rejection.body, "Authentication token expired");
    // The downstream handler never sees claims for this request.
    assert_eq!(
        Claims::from_request(&ctx).unwrap_err(),
        AuthError::MissingOrAbsentClaims
    );
}

#[test]
fn invalid_signature_is_rejected_with_401() {
    let token =
        encode_jwt("user@example.com".to_string(), 7, 1_000, 10, "other secret").expect("signing");
    let header = format!("Bearer {token}");
    let mut ctx = RequestContext::new();
    let rejection =
        check_auth_middleware(&mut ctx, Some(&header), "secret", 1_000).unwrap_err();
    assert_eq!(rejection.status_code, 401);
    assert_eq!(rejection.body, "Invalid authentication token");
}

#[test]
fn valid_bearer_token_attaches_claims_for_the_extractor() {
    let token =
        encode_jwt("user@example.com".to_string(), 7, 1_000, 3_600, "secret").expect("signing");
    let header = format!("Bearer {token}");
    let mut ctx = RequestContext::new();
    check_auth_middleware(&mut ctx, Some(&header), "secret", 1_000).expect("middleware must pass");
    let claims = Claims::from_request(&ctx).expect("claims must be attached");
    assert_eq!(claims.id, 7);
    assert_eq!(claims.email, "user@example.com");
    assert_eq!(claims.iat, 1_000);
    assert_eq!(claims.exp, 4_600);
}

#[test]
fn extractor_fails_closed_on_a_fresh_request() {
    let ctx = RequestContext::new();
    assert_eq!(
        Claims::from_request(&ctx).unwrap_err(),
        AuthError::MissingOrAbsentClaims
    );
}
