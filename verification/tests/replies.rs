use codex_oauth_auth::clock::{
    compute_expires_at_ms, compute_expires_at_ms_from, last_refresh_text, last_refresh_text_at,
    life_fits, CLOCK_MAX_MS, CLOCK_MIN_MS,
};
use codex_oauth_auth::account::CachedAccessToken;
use codex_oauth_auth::error::CodexOAuthError;
use codex_oauth_auth::exchange::{
    check_device_code_reply, check_exchange_reply, check_poll_reply, check_refresh_reply,
    check_refresh_reply_with, code_exchange_request, device_code_request, poll_request,
    refresh_request,
};
use codex_oauth_auth::json::{
    extract_refresh_error_code, parse_interval, parse_interval_checked, refresh_error_code_in,
    POLLING_SAFETY_MARGIN_SECS,
};

#[test]
fn test_parse_interval_number() {
    let v = serde_json::Value::Number(serde_json::Number::from(5));
    assert_eq!(parse_interval(Some(&v)), 5 + POLLING_SAFETY_MARGIN_SECS);
}

#[test]
fn test_parse_interval_string() {
    let v = serde_json::Value::String("10".to_string());
    assert_eq!(parse_interval(Some(&v)), 10 + POLLING_SAFETY_MARGIN_SECS);
}

#[test]
fn test_parse_interval_default() {
    assert_eq!(parse_interval(None), 5 + POLLING_SAFETY_MARGIN_SECS);
}

#[test]
fn test_parse_interval_min() {
    let v = serde_json::Value::Number(serde_json::Number::from(0));
    assert_eq!(parse_interval(Some(&v)), 1 + POLLING_SAFETY_MARGIN_SECS);
}

#[test]
fn test_compute_expires_at_ms() {
    let result = compute_expires_at_ms(Some(3600));
    let now = chrono::Utc::now().timestamp_millis();
    assert!(result > now + 3500 * 1000);
    assert!(result < now + 3700 * 1000);
}

#[test]
fn test_compute_expires_at_ms_default() {
    let result = compute_expires_at_ms(None);
    let now = chrono::Utc::now().timestamp_millis();
    assert!(result > now);
}

#[test]
fn test_cached_token_expiring_soon() {
    let now = chrono::Utc::now().timestamp_millis();
    let expiring = CachedAccessToken {
        token: "t".to_string(),
        expires_at_ms: now + 30_000,
        obtained_at_ms: now,
    };
    assert!(expiring.is_expiring_soon());

    let valid = CachedAccessToken {
        token: "t".to_string(),
        expires_at_ms: now + 3_600_000,
        obtained_at_ms: now,
    };
    assert!(!valid.is_expiring_soon());
}

#[test]
fn refresh_error_code_accepts_openai_error_shapes() {
    assert_eq!(
        extract_refresh_error_code(r#"{"error":{"code":"refresh_token_reused"}}"#).as_deref(),
        Some("refresh_token_reused")
    );
    assert_eq!(
        extract_refresh_error_code(r#"{"error":"refresh_token_expired"}"#).as_deref(),
        Some("refresh_token_expired")
    );
    assert_eq!(
        extract_refresh_error_code(r#"{"code":"REFRESH_TOKEN_INVALIDATED"}"#).as_deref(),
        Some("refresh_token_invalidated")
    );
    assert_eq!(extract_refresh_error_code("not json"), None);
}

#[test]
fn an_error_code_is_looked_for_under_error_first() {
    let code = |text: &str| {
        let value: serde_json::Value = serde_json::from_str(text).unwrap();
        refresh_error_code_in(&value)
    };
    assert_eq!(
        code(r#"{"error":"A","code":"B"}"#).as_deref(),
        Some("a")
    );
    assert_eq!(
        code(r#"{"error":{"code":"A"},"code":"B"}"#).as_deref(),
        Some("a")
    );
    assert_eq!(
        code(r#"{"error":{"message":"A"},"code":"B"}"#).as_deref(),
        Some("b")
    );
    assert_eq!(code(r#"{"error":{"code":7},"code":"B"}"#).as_deref(), Some("b"));
    assert_eq!(code(r#"{"error":null}"#), None);
    assert_eq!(code(r#"["error"]"#), None);
    assert_eq!(code(r#"{"code":"ÄB"}"#).as_deref(), Some("Äb"));
}

#[test]
fn an_interval_that_is_no_number_is_the_default() {
    let interval = |text: &str| {
        let value: serde_json::Value = serde_json::from_str(text).unwrap();
        parse_interval_checked(Some(&value))
    };
    assert_eq!(interval("7"), Some(10));
    assert_eq!(interval("\"7\""), Some(10));
    assert_eq!(interval("\"+7\""), Some(10));
    assert_eq!(interval("\"007\""), Some(10));
    assert_eq!(interval("\" 7\""), Some(8));
    assert_eq!(interval("\"-7\""), Some(8));
    assert_eq!(interval("\"\""), Some(8));
    assert_eq!(interval("\"+\""), Some(8));
    assert_eq!(interval("-7"), Some(8));
    assert_eq!(interval("7.5"), Some(8));
    assert_eq!(interval("null"), Some(8));
    assert_eq!(interval("true"), Some(8));
    assert_eq!(interval("[7]"), Some(8));
    assert_eq!(interval("\"0\""), Some(4));
    assert_eq!(interval("\"18446744073709551616\""), Some(8));
    assert_eq!(interval("18446744073709551612"), Some(u64::MAX));
    assert_eq!(interval("18446744073709551613"), None);
    assert_eq!(interval("\"18446744073709551615\""), None);
    assert_eq!(parse_interval_checked(None), Some(8));
}

#[test]
fn a_token_expires_after_its_life() {
    assert_eq!(compute_expires_at_ms_from(1_000, Some(60)), 61_000);
    assert_eq!(compute_expires_at_ms_from(1_000, None), 3_601_000);
    assert_eq!(compute_expires_at_ms_from(1_000, Some(-1)), 0);
    assert!(life_fits(None));
    assert!(life_fits(Some(3600)));
    assert!(life_fits(Some(-9_223_372_036_854_775)));
    assert!(!life_fits(Some(-9_223_372_036_854_776)));
    assert!(!life_fits(Some(i64::MAX)));
    assert!(life_fits(Some(9_215_161_769_977_975)));
    assert!(!life_fits(Some(9_215_161_769_977_976)));
}

#[test]
fn a_token_is_expiring_within_the_last_minute() {
    let token = CachedAccessToken {
        token: "t".to_string(),
        expires_at_ms: 100_000,
        obtained_at_ms: 0,
    };
    assert!(!token.is_expiring_soon_at(39_999));
    assert!(!token.is_expiring_soon_at(40_000));
    assert!(token.is_expiring_soon_at(40_001));
    assert!(token.is_expiring_soon_at(200_000));
    assert!(!token.is_expiring_soon_at(i64::MIN));
    assert_eq!(token.clone().token, "t");
}

#[test]
fn a_time_is_written_with_nanoseconds_in_utc() {
    assert_eq!(
        last_refresh_text_at(1_700_000_000_123, 0),
        "2023-11-14T22:13:20.123000000Z"
    );
    assert_eq!(last_refresh_text_at(0, 5), "1970-01-01T00:00:00.000000000Z");
    assert_eq!(
        last_refresh_text(1_700_000_000_123),
        "2023-11-14T22:13:20.123000000Z"
    );
}

#[test]
fn a_time_that_cannot_be_written_gives_way_to_the_present() {
    let now = 1_700_000_000_123;
    let now_text = "2023-11-14T22:13:20.123000000Z";
    assert_ne!(last_refresh_text_at(CLOCK_MAX_MS, now), now_text);
    assert_eq!(last_refresh_text_at(CLOCK_MAX_MS + 1, now), now_text);
    assert_ne!(last_refresh_text_at(CLOCK_MIN_MS, now), now_text);
    assert_eq!(last_refresh_text_at(CLOCK_MIN_MS - 1, now), now_text);
    assert_eq!(last_refresh_text_at(i64::MAX, now), now_text);
    assert_eq!(last_refresh_text_at(i64::MIN, now), now_text);
    assert_eq!(
        chrono::DateTime::<chrono::Utc>::MAX_UTC.timestamp_millis(),
        CLOCK_MAX_MS
    );
    assert_eq!(
        chrono::DateTime::<chrono::Utc>::MIN_UTC.timestamp_millis(),
        CLOCK_MIN_MS
    );
}

fn pairs(fields: &[(&str, &str)]) -> Vec<(String, String)> {
    fields
        .iter()
        .map(|(name, value)| (name.to_string(), value.to_string()))
        .collect()
}

#[test]
fn requests_carry_their_fields() {
    assert_eq!(
        device_code_request(),
        pairs(&[("client_id", "app_EMoamEEZ73f0CkXaXp7hrann")])
    );
    assert_eq!(
        poll_request("device", "CODE"),
        pairs(&[("device_auth_id", "device"), ("user_code", "CODE")])
    );
    assert_eq!(
        code_exchange_request("code", "verifier"),
        pairs(&[
            ("grant_type", "authorization_code"),
            ("code", "code"),
            (
                "redirect_uri",
                "https://auth.openai.com/deviceauth/callback"
            ),
            ("client_id", "app_EMoamEEZ73f0CkXaXp7hrann"),
            ("code_verifier", "verifier"),
        ])
    );
    assert_eq!(
        refresh_request("rt"),
        pairs(&[
            ("grant_type", "refresh_token"),
            ("refresh_token", "rt"),
            ("client_id", "app_EMoamEEZ73f0CkXaXp7hrann"),
            ("scope", "openid profile email"),
        ])
    );
}

#[test]
fn a_refused_device_code_is_a_network_error() {
    assert!(check_device_code_reply(200, "200 OK", "{}").is_ok());
    assert!(check_device_code_reply(299, "299", "").is_ok());
    let error = check_device_code_reply(500, "500 Internal Server Error", "oops").unwrap_err();
    assert_eq!(
        error.message(),
        "网络错误: Device Code 请求失败: 500 Internal Server Error - oops"
    );
    assert!(check_device_code_reply(199, "199", "").is_err());
    assert!(check_device_code_reply(300, "300", "").is_err());
}

#[test]
fn a_poll_is_pending_expired_granted_or_refused() {
    assert!(matches!(
        check_poll_reply(403, "403 Forbidden", ""),
        Err(CodexOAuthError::AuthorizationPending)
    ));
    assert!(matches!(
        check_poll_reply(404, "404 Not Found", ""),
        Err(CodexOAuthError::AuthorizationPending)
    ));
    assert!(matches!(
        check_poll_reply(410, "410 Gone", ""),
        Err(CodexOAuthError::ExpiredToken)
    ));
    assert!(check_poll_reply(200, "200 OK", "").is_ok());
    assert_eq!(
        check_poll_reply(400, "400 Bad Request", "no")
            .unwrap_err()
            .message(),
        "OAuth Token 获取失败: 400 Bad Request - no"
    );
}

#[test]
fn a_refused_exchange_is_reported() {
    assert!(check_exchange_reply(201, "201 Created", "").is_ok());
    assert_eq!(
        check_exchange_reply(400, "400 Bad Request", "no")
            .unwrap_err()
            .message(),
        "OAuth Token 获取失败: Token 交换失败: 400 Bad Request - no"
    );
}

#[test]
fn a_refused_refresh_may_mean_that_the_token_is_no_longer_accepted() {
    assert!(check_refresh_reply(200, "200 OK", "{}").is_ok());
    let rejected = |status: u16, body: &str| {
        matches!(
            check_refresh_reply(status, "status", body),
            Err(CodexOAuthError::RefreshTokenInvalid)
        )
    };
    assert!(rejected(401, ""));
    assert!(rejected(403, ""));
    assert!(rejected(400, r#"{"error":{"code":"refresh_token_reused"}}"#));
    assert!(rejected(400, r#"{"error":"Refresh_Token_Expired"}"#));
    assert!(rejected(500, r#"{"code":"refresh_token_invalidated"}"#));
    assert!(!rejected(400, r#"{"code":"invalid_grant"}"#));
    assert!(check_refresh_reply(200, "200 OK", r#"{"code":"refresh_token_reused"}"#).is_ok());
    assert_eq!(
        check_refresh_reply(503, "503 Service Unavailable", "later")
            .unwrap_err()
            .message(),
        "OAuth Token 获取失败: Refresh 失败: 503 Service Unavailable - later"
    );
    assert!(matches!(
        check_refresh_reply_with(400, "400", "", Some("refresh_token_expired")),
        Err(CodexOAuthError::RefreshTokenInvalid)
    ));
    assert!(matches!(
        check_refresh_reply_with(400, "400", "", None),
        Err(CodexOAuthError::TokenFetchFailed(_))
    ));
}

#[test]
fn every_error_has_its_message() {
    let detail = || "x".to_string();
    assert_eq!(
        CodexOAuthError::AuthorizationPending.message(),
        "等待用户授权中"
    );
    assert_eq!(CodexOAuthError::AccessDenied.message(), "用户拒绝授权");
    assert_eq!(CodexOAuthError::ExpiredToken.message(), "Device Code 已过期");
    assert_eq!(
        CodexOAuthError::TokenFetchFailed(detail()).message(),
        "OAuth Token 获取失败: x"
    );
    assert_eq!(
        CodexOAuthError::RefreshTokenInvalid.message(),
        "Refresh Token 失效或已过期"
    );
    assert_eq!(
        CodexOAuthError::NetworkError(detail()).message(),
        "网络错误: x"
    );
    assert_eq!(CodexOAuthError::ParseError(detail()).message(), "解析错误: x");
    assert_eq!(CodexOAuthError::IoError(detail()).message(), "IO 错误: x");
    assert_eq!(
        CodexOAuthError::AccountNotFound(detail()).clone().message(),
        "账号不存在: x"
    );
}
