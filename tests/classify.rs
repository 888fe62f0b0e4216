use std::time::Duration;

use cloud_completion::errors::{
    classify_api_error, from_http_status, resolve_upstream_status, status_code_from_u16,
    ApiError, CloudApiError, CompletionError, PROVIDER_NAME,
};

/// Decodes a failure body as the relay's error envelope, as a client does
/// before classification.
fn envelope_of(body: &str) -> Option<CloudApiError> {
    let value: serde_json::Value = serde_json::from_str(body).ok()?;
    let object = value.as_object()?;
    let code = object.get("code")?.as_str()?.to_string();
    let message = object.get("message")?.as_str()?.to_string();
    let upstream_status = match object.get("upstream_status") {
        None | Some(serde_json::Value::Null) => None,
        Some(v) => Some(u16::try_from(v.as_u64()?).ok()?),
    };
    let retry_after = match object.get("retry_after") {
        None | Some(serde_json::Value::Null) => None,
        Some(v) => Some(Duration::from_secs_f64(v.as_f64()?)),
    };
    Some(CloudApiError { code, message, upstream_status, retry_after })
}

fn classify(status: u16, body: &str) -> CompletionError {
    let error = ApiError { status, body: body.to_string(), headers: Vec::new() };
    classify_api_error(error, envelope_of(body))
}

#[test]
fn test_api_error_conversion_with_upstream_http_error() {
    // upstream_http_error with 503 status should become ServerOverloaded
    let error_body = r#"{"code":"upstream_http_error","message":"Received an error from the Anthropic API: upstream connect error or disconnect/reset before headers, reset reason: connection timeout","upstream_status":503}"#;
    let completion_error = classify(500, error_body);
    match completion_error {
        CompletionError::UpstreamProviderError { message, .. } => {
            assert_eq!(
                message,
                "Received an error from the Anthropic API: upstream connect error or disconnect/reset before headers, reset reason: connection timeout"
            );
        }
        _ => panic!(
            "Expected UpstreamProviderError for upstream 503, got: {:?}",
            completion_error
        ),
    }

    // upstream_http_error with 500 status should become ApiInternalServerError
    let error_body = r#"{"code":"upstream_http_error","message":"Received an error from the OpenAI API: internal server error","upstream_status":500}"#;
    let completion_error = classify(500, error_body);
    match completion_error {
        CompletionError::UpstreamProviderError { message, .. } => {
            assert_eq!(message, "Received an error from the OpenAI API: internal server error");
        }
        _ => panic!(
            "Expected UpstreamProviderError for upstream 500, got: {:?}",
            completion_error
        ),
    }

    // upstream_http_error with 429 status should become RateLimitExceeded
    let error_body = r#"{"code":"upstream_http_error","message":"Received an error from the Google API: rate limit exceeded","upstream_status":429}"#;
    let completion_error = classify(500, error_body);
    match completion_error {
        CompletionError::UpstreamProviderError { message, .. } => {
            assert_eq!(message, "Received an error from the Google API: rate limit exceeded");
        }
        _ => panic!(
            "Expected UpstreamProviderError for upstream 429, got: {:?}",
            completion_error
        ),
    }

    // Regular 500 error without upstream_http_error should remain ApiInternalServerError
    let error_body = "Regular internal server error";
    let completion_error = classify(500, error_body);
    match completion_error {
        CompletionError::ApiInternalServerError { provider, message } => {
            assert_eq!(provider, PROVIDER_NAME);
            assert_eq!(message, "Regular internal server error");
        }
        _ => panic!(
            "Expected ApiInternalServerError for regular 500, got: {:?}",
            completion_error
        ),
    }

    // upstream_http_429 format should be converted to UpstreamProviderError
    let error_body = r#"{"code":"upstream_http_429","message":"Upstream Anthropic rate limit exceeded.","retry_after":30.5}"#;
    let completion_error = classify(500, error_body);
    match completion_error {
        CompletionError::UpstreamProviderError { message, status, retry_after } => {
            assert_eq!(message, "Upstream Anthropic rate limit exceeded.");
            assert_eq!(status, 429);
            assert_eq!(retry_after, Some(Duration::from_secs_f64(30.5)));
        }
        _ => panic!(
            "Expected UpstreamProviderError for upstream_http_429, got: {:?}",
            completion_error
        ),
    }

    // Invalid JSON in error body should fall back to regular error handling
    let error_body = "Not JSON at all";
    let completion_error = classify(500, error_body);
    match completion_error {
        CompletionError::ApiInternalServerError { provider, .. } => {
            assert_eq!(provider, PROVIDER_NAME);
        }
        _ => panic!(
            "Expected ApiInternalServerError for invalid JSON, got: {:?}",
            completion_error
        ),
    }
}

#[test]
fn explicit_upstream_status_wins_over_outer_status() {
    for outer in [400u16, 500, 502, 503] {
        let body = r#"{"code":"upstream_http_error","message":"m","upstream_status":503}"#;
        match classify(outer, body) {
            CompletionError::UpstreamProviderError { status, .. } => assert_eq!(status, 503),
            other => panic!("unexpected {:?}", other),
        }
        let body = r#"{"code":"upstream_http_418","message":"m","upstream_status":502}"#;
        match classify(outer, body) {
            CompletionError::UpstreamProviderError { status, .. } => assert_eq!(status, 502),
            other => panic!("unexpected {:?}", other),
        }
    }
}

#[test]
fn generic_upstream_code_uses_outer_status() {
    let body = r#"{"code":"upstream_http_error","message":"boom"}"#;
    match classify(502, body) {
        CompletionError::UpstreamProviderError { status, message, retry_after } => {
            assert_eq!(status, 502);
            assert_eq!(message, "boom");
            assert_eq!(retry_after, None);
        }
        other => panic!("unexpected {:?}", other),
    }
}

#[test]
fn status_is_read_from_the_code() {
    let body = r#"{"code":"upstream_http_429","message":"slow down"}"#;
    match classify(500, body) {
        CompletionError::UpstreamProviderError { status, .. } => assert_eq!(status, 429),
        other => panic!("unexpected {:?}", other),
    }
}

#[test]
fn unreadable_code_number_falls_back_to_outer_status() {
    for code in ["upstream_http_abc", "upstream_http_", "upstream_http_99", "upstream_http_70000"] {
        let body = format!(r#"{{"code":"{}","message":"m"}}"#, code);
        match classify(504, &body) {
            CompletionError::UpstreamProviderError { status, .. } => assert_eq!(status, 504),
            other => panic!("unexpected {:?}", other),
        }
    }
}

#[test]
fn out_of_range_upstream_status_counts_as_absent() {
    let body = r#"{"code":"upstream_http_429","message":"m","upstream_status":42}"#;
    match classify(500, body) {
        CompletionError::UpstreamProviderError { status, .. } => assert_eq!(status, 429),
        other => panic!("unexpected {:?}", other),
    }
}

#[test]
fn retry_hint_is_kept_exactly() {
    let body = r#"{"code":"upstream_http_429","message":"m","retry_after":30.5}"#;
    match classify(500, body) {
        CompletionError::UpstreamProviderError { retry_after, .. } => {
            assert_eq!(retry_after, Some(Duration::from_millis(30_500)));
        }
        other => panic!("unexpected {:?}", other),
    }
}

#[test]
fn envelope_with_other_code_falls_back() {
    let body = r#"{"code":"rate_limited","message":"m"}"#;
    match classify(429, body) {
        CompletionError::RateLimitExceeded { provider, retry_after } => {
            assert_eq!(provider, "Zed");
            assert_eq!(retry_after, None);
        }
        other => panic!("unexpected {:?}", other),
    }
}

#[test]
fn malformed_body_falls_back_to_status_kind() {
    match classify(503, "{\"code\": ") {
        CompletionError::ServerOverloaded { provider, retry_after } => {
            assert_eq!(provider, "Zed");
            assert_eq!(retry_after, None);
        }
        other => panic!("unexpected {:?}", other),
    }
}

#[test]
fn status_keyed_kinds() {
    let p = || "P".to_string();
    let m = || "msg".to_string();
    assert_eq!(
        from_http_status(p(), 400, m(), None),
        CompletionError::BadRequestFormat { provider: p(), message: m() }
    );
    assert_eq!(
        from_http_status(p(), 401, m(), None),
        CompletionError::AuthenticationError { provider: p(), message: m() }
    );
    assert_eq!(
        from_http_status(p(), 403, m(), None),
        CompletionError::PermissionError { provider: p(), message: m() }
    );
    assert_eq!(
        from_http_status(p(), 404, m(), None),
        CompletionError::ApiEndpointNotFound { provider: p() }
    );
    assert_eq!(
        from_http_status(p(), 413, m(), None),
        CompletionError::PromptTooLarge { provider: p(), message: m() }
    );
    assert_eq!(
        from_http_status(p(), 429, m(), Some(Duration::from_secs(3))),
        CompletionError::RateLimitExceeded { provider: p(), retry_after: Some(Duration::from_secs(3)) }
    );
    assert_eq!(
        from_http_status(p(), 500, m(), None),
        CompletionError::ApiInternalServerError { provider: p(), message: m() }
    );
    assert_eq!(
        from_http_status(p(), 529, m(), None),
        CompletionError::ServerOverloaded { provider: p(), retry_after: None }
    );
    assert_eq!(
        from_http_status(p(), 418, m(), None),
        CompletionError::HttpResponseError { provider: p(), status: 418, message: m() }
    );
}

#[test]
fn resolve_status_priorities() {
    assert_eq!(resolve_upstream_status("upstream_http_429", Some(503), 500), 503);
    assert_eq!(resolve_upstream_status("upstream_http_error", None, 502), 502);
    assert_eq!(resolve_upstream_status("upstream_http_429", None, 500), 429);
    assert_eq!(resolve_upstream_status("upstream_http_+429", None, 500), 429);
    assert_eq!(resolve_upstream_status("upstream_http_429", Some(1000), 500), 429);
    assert_eq!(resolve_upstream_status("upstream_http_x", None, 500), 500);
}

#[test]
fn status_code_range() {
    assert_eq!(status_code_from_u16(99), None);
    assert_eq!(status_code_from_u16(100), Some(100));
    assert_eq!(status_code_from_u16(999), Some(999));
    assert_eq!(status_code_from_u16(1000), None);
}

#[test]
fn any_error_suffix_keeps_outer_status() {
    let body = r#"{"code":"upstream_http_503_error","message":"m"}"#;
    match classify(500, body) {
        CompletionError::UpstreamProviderError { status, .. } => assert_eq!(status, 500),
        other => panic!("unexpected {:?}", other),
    }
}
