use openrouter::{
    classify_error, decoded_success, error_for_response, is_success, retry_after_seconds,
    ErrorDetail, ErrorResponse, OpenRouterError,
};

fn envelope(message: &str, code: Option<i32>) -> Option<ErrorResponse> {
    Some(ErrorResponse {
        error: ErrorDetail { message: message.to_string(), error_type: None, code },
    })
}

#[test]
fn success_range() {
    assert!(is_success(200));
    assert!(is_success(204));
    assert!(is_success(299));
    assert!(!is_success(199));
    assert!(!is_success(300));
    assert!(!is_success(404));
}

#[test]
fn well_known_statuses() {
    let body = "{}".to_string();
    assert!(matches!(classify_error(401, body.clone(), envelope("m", Some(400)), None), OpenRouterError::Unauthorized));
    assert!(matches!(classify_error(402, body.clone(), envelope("pay", None), None), OpenRouterError::InsufficientCredits(m) if m == "pay"));
    assert!(matches!(classify_error(403, body.clone(), envelope("no", None), None), OpenRouterError::Forbidden(m) if m == "no"));
    assert!(matches!(classify_error(404, body.clone(), envelope("gone", Some(400)), None), OpenRouterError::NotFound(m) if m == "gone"));
    assert!(matches!(classify_error(429, body.clone(), envelope("slow", None), Some(5)), OpenRouterError::RateLimited { retry_after: 5 }));
    assert!(matches!(classify_error(500, body.clone(), envelope("boom", None), None), OpenRouterError::ServerError(m) if m == "boom"));
    assert!(matches!(classify_error(502, body.clone(), envelope("bad gw", Some(404)), None), OpenRouterError::ServerError(m) if m == "bad gw"));
    assert!(matches!(classify_error(503, body, envelope("down", None), None), OpenRouterError::ServerError(m) if m == "down"));
}

#[test]
fn rate_limit_delay_from_header() {
    let e = error_for_response(429, "{}".to_string(), envelope("slow", None), Some("120"));
    assert!(matches!(e, OpenRouterError::RateLimited { retry_after: 120 }));
    let e = error_for_response(429, "{}".to_string(), envelope("slow", None), None);
    assert!(matches!(e, OpenRouterError::RateLimited { retry_after: 60 }));
    let e = error_for_response(429, "{}".to_string(), envelope("slow", None), Some("soon"));
    assert!(matches!(e, OpenRouterError::RateLimited { retry_after: 60 }));
}

#[test]
fn retry_after_parsing() {
    assert_eq!(retry_after_seconds(Some("0")), Some(0));
    assert_eq!(retry_after_seconds(Some("+7")), Some(7));
    assert_eq!(retry_after_seconds(Some("18446744073709551615")), Some(u64::MAX));
    assert_eq!(retry_after_seconds(Some("18446744073709551616")), None);
    assert_eq!(retry_after_seconds(Some("")), None);
    assert_eq!(retry_after_seconds(Some("+")), None);
    assert_eq!(retry_after_seconds(Some("-1")), None);
    assert_eq!(retry_after_seconds(Some("1.5")), None);
    assert_eq!(retry_after_seconds(None), None);
}

#[test]
fn unmapped_status_uses_vendor_code() {
    assert!(matches!(classify_error(418, "{}".to_string(), envelope("bad", Some(400)), None), OpenRouterError::InvalidRequest(m) if m == "bad"));
    assert!(matches!(classify_error(418, "{}".to_string(), envelope("nomodel", Some(404)), None), OpenRouterError::ModelNotAvailable(m) if m == "nomodel"));
    assert!(matches!(classify_error(418, "{}".to_string(), envelope("teapot", Some(999)), None), OpenRouterError::Api { status: 418, message } if message == "teapot"));
    assert!(matches!(classify_error(400, "{}".to_string(), envelope("plain", None), None), OpenRouterError::Api { status: 400, message } if message == "plain"));
}

#[test]
fn undecodable_error_body_keeps_raw_text() {
    let e = classify_error(500, "<html>oops</html>".to_string(), None, Some(3));
    assert!(matches!(e, OpenRouterError::Api { status: 500, message } if message == "<html>oops</html>"));
    let e = error_for_response(429, "not json".to_string(), None, Some("9"));
    assert!(matches!(e, OpenRouterError::Api { status: 429, message } if message == "not json"));
}

#[test]
fn success_body_that_does_not_decode_is_json_error() {
    let decoded = serde_json::from_str::<u64>("{\"unexpected\": true}");
    assert!(matches!(decoded_success(decoded), Err(OpenRouterError::Json(_))));
    let decoded = serde_json::from_str::<u64>("42");
    assert!(matches!(decoded_success(decoded), Ok(42)));
}
