use api_types::{ApiError, ApiResponse, JSend, PaginationMeta};

#[test]
fn constructors() {
    assert!(JSend::success(1).is_success());
    assert!(!JSend::fail(1).is_success());
    assert!(!JSend::<()>::error("boom").is_success());
    let coded = JSend::<()>::error_with_code("boom", 500);
    assert!(matches!(
        coded,
        JSend::Error {
            code: Some(500),
            ..
        }
    ));
}

#[test]
fn from_api_response() {
    let ok: JSend<i32> = ApiResponse::success(7).into();
    assert!(matches!(ok, JSend::Success { data: Some(7) }));

    let fail: JSend<()> =
        ApiResponse::<()>::error(ApiError::new("NOT_FOUND", "missing")).into();
    assert!(matches!(fail, JSend::Error { .. }));
    if let JSend::Error { message, .. } = fail {
        assert_eq!(message, "missing");
    }
}

#[test]
fn from_api_error() {
    let js: JSend<()> = ApiError::new("BAD_REQUEST", "bad").into();
    assert!(matches!(js, JSend::Error { .. }));
}

#[test]
fn from_api_error_carries_message_only() {
    let js: JSend<()> = ApiError::new("BAD_REQUEST", "bad").into();
    match js {
        JSend::Error { message, code, data } => {
            assert_eq!(message, "bad");
            assert_eq!(code, None);
            assert_eq!(data, None);
        }
        _ => panic!("expected a JSend error"),
    }
}

#[test]
fn jsend_from_api_response_preserves_outcome() {
    for data in ["a", "hello", "zzzz"] {
        let ok: JSend<String> = ApiResponse::success(data.to_string()).into();
        assert!(ok.is_success());

        let err: JSend<()> = ApiResponse::<()>::error(ApiError::new("NOT_FOUND", data)).into();
        assert!(!err.is_success());
    }
}

#[test]
fn from_failed_response_without_error_has_empty_message() {
    let resp: ApiResponse<i32> = ApiResponse {
        success: false,
        data: Some(3),
        error: None,
        pagination: None,
    };
    match JSend::from(resp) {
        JSend::Error { message, code, data } => {
            assert_eq!(message, "");
            assert_eq!(code, None);
            assert_eq!(data, Some(3));
        }
        _ => panic!("expected a JSend error"),
    }
}

#[test]
fn from_success_response_ignores_stray_error() {
    let resp: ApiResponse<i32> = ApiResponse {
        success: true,
        data: None,
        error: Some(ApiError::new("X", "y")),
        pagination: None,
    };
    assert!(matches!(JSend::from(resp), JSend::Success { data: None }));
}

#[test]
fn from_paginated_response_keeps_data() {
    let meta = PaginationMeta { page: 1, per_page: 2, total: 3, total_pages: 2 };
    let js: JSend<Vec<u8>> = ApiResponse::paginated(vec![1, 2], meta).into();
    assert!(matches!(js, JSend::Success { data: Some(ref v) } if *v == vec![1, 2]));
}

#[test]
fn constructor_payloads() {
    assert!(matches!(JSend::success(5), JSend::Success { data: Some(5) }));
    assert!(matches!(JSend::fail("why"), JSend::Fail { data: Some("why") }));
    match JSend::<u8>::error("boom") {
        JSend::Error { message, code, data } => {
            assert_eq!(message, "boom");
            assert_eq!(code, None);
            assert_eq!(data, None);
        }
        _ => panic!("expected a JSend error"),
    }
    match JSend::<u8>::error_with_code("down", -7) {
        JSend::Error { message, code, data } => {
            assert_eq!(message, "down");
            assert_eq!(code, Some(-7));
            assert_eq!(data, None);
        }
        _ => panic!("expected a JSend error"),
    }
}
