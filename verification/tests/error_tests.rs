use api_types::{ApiError, ApiResponse};
use http::StatusCode;

fn details_value() -> serde_json::Value {
    serde_json::from_str(r#"{"field": "name"}"#).unwrap()
}

#[test]
fn new_error() {
    let e = ApiError::new("NOT_FOUND", "missing");
    assert_eq!(e.code, "NOT_FOUND");
    assert_eq!(e.message, "missing");
    assert!(e.details.is_none());
}

#[test]
fn with_details() {
    let e = ApiError::new("BAD_REQUEST", "bad").with_details(details_value());
    assert!(e.details.is_some());
}

#[test]
fn status_code_mapping() {
    assert_eq!(
        ApiError::new("NOT_FOUND", "").status_code(),
        StatusCode::NOT_FOUND
    );
    assert_eq!(
        ApiError::new("UNAUTHORIZED", "").status_code(),
        StatusCode::UNAUTHORIZED
    );
    assert_eq!(
        ApiError::new("INTERNAL_ERROR", "").status_code(),
        StatusCode::INTERNAL_SERVER_ERROR
    );
    assert_eq!(
        ApiError::new("UNKNOWN", "").status_code(),
        StatusCode::BAD_REQUEST
    );
}

#[test]
fn display_impl() {
    let e = ApiError::new("CONFLICT", "already exists");
    assert_eq!(e.display_string(), "[CONFLICT] already exists");
}

#[test]
fn error_code_to_status_mapping_table() {
    let cases: &[(&str, u16)] = &[
        ("BAD_REQUEST", 400),
        ("VALIDATION_ERROR", 400),
        ("UNAUTHORIZED", 401),
        ("FORBIDDEN", 403),
        ("NOT_FOUND", 404),
        ("CONFLICT", 409),
        ("UNPROCESSABLE_ENTITY", 422),
        ("RATE_LIMITED", 429),
        ("INTERNAL_ERROR", 500),
        ("SERVICE_UNAVAILABLE", 503),
        ("ANYTHING_ELSE", 400), // unknown codes fail closed to 400
    ];
    for (code, status) in cases {
        let got = ApiError::new(*code, "").status_code();
        assert_eq!(got.as_u16(), *status, "code {code} must map to {status}");
    }
}

#[test]
fn status_number_matches_status_code() {
    for code in [
        "BAD_REQUEST",
        "VALIDATION_ERROR",
        "UNAUTHORIZED",
        "FORBIDDEN",
        "NOT_FOUND",
        "CONFLICT",
        "UNPROCESSABLE_ENTITY",
        "RATE_LIMITED",
        "INTERNAL_ERROR",
        "SERVICE_UNAVAILABLE",
        "",
        "not_found",
        "NOT_FOUND ",
    ] {
        let e = ApiError::new(code, "m");
        assert_eq!(e.status_number(), e.status_code().as_u16());
    }
}

#[test]
fn status_codes_are_case_and_length_sensitive() {
    assert_eq!(ApiError::new("not_found", "").status_number(), 400);
    assert_eq!(ApiError::new("NOT_FOUND_", "").status_number(), 400);
    assert_eq!(ApiError::new("NOT_FOUN", "").status_number(), 400);
    assert_eq!(ApiError::new("", "").status_number(), 400);
    assert_eq!(ApiError::new("FORBIDDEN", "").status_number(), 403);
    assert_eq!(ApiError::new("CONFLICT", "").status_number(), 409);
    assert_eq!(ApiError::new("UNPROCESSABLE_ENTITY", "").status_number(), 422);
    assert_eq!(ApiError::new("RATE_LIMITED", "").status_number(), 429);
    assert_eq!(ApiError::new("SERVICE_UNAVAILABLE", "").status_number(), 503);
    assert_eq!(ApiError::new("VALIDATION_ERROR", "").status_number(), 400);
}

#[test]
fn with_details_keeps_code_and_message() {
    let e = ApiError::new("BAD_REQUEST", "bad").with_details(details_value());
    assert_eq!(e.code, "BAD_REQUEST");
    assert_eq!(e.message, "bad");
    assert_eq!(e.details, Some(details_value()));
    let replaced = e.with_details(serde_json::Value::Bool(true));
    assert_eq!(replaced.details, Some(serde_json::Value::Bool(true)));
}

#[test]
fn display_with_empty_and_unicode_parts() {
    assert_eq!(ApiError::new("", "").display_string(), "[] ");
    assert_eq!(
        ApiError::new("É_CODE", "héllo wörld").display_string(),
        "[É_CODE] héllo wörld"
    );
}

#[test]
fn clone_keeps_fields() {
    let e = ApiError::new("NOT_FOUND", "missing").with_details(details_value());
    let c = e.clone();
    assert_eq!(c.code, e.code);
    assert_eq!(c.message, e.message);
    assert_eq!(c.details, e.details);
}

#[test]
fn error_response_status_follows_code() {
    let r: ApiResponse<()> = ApiResponse::error_with("RATE_LIMITED", "slow down");
    assert_eq!(r.error.unwrap().status_code(), StatusCode::TOO_MANY_REQUESTS);
}
