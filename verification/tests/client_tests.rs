use tigeropen::client::api_request::ApiRequest;
use tigeropen::client::api_response::{check_api_response, ApiResponse};
use tigeropen::client::errors::{classify_error_code, ErrorCategory};
use tigeropen::client::http::{
    auto_refresh_manager, authorization, build_common_params, i64_text, request_url,
    reply_sign, token_from_reply, token_from_reply_body, token_in_reply_data, user_agent, validate_execute_args, ReplyData,
};
use tigeropen::client::retry::{is_trade_operation, RetryPolicy};
use tigeropen::config::client_config::ClientConfig;
use tigeropen::duration::Duration;
use tigeropen::error::TigerError;
use tigeropen::model::enums::Language;

fn test_config(server_url: &str) -> ClientConfig {
    ClientConfig {
        tiger_id: "test_tiger_id".to_string(),
        private_key: "test_key".to_string(),
        account: "test_account".to_string(),
        license: None,
        language: Language::ZhCn,
        timezone: None,
        timeout: Duration::from_secs(15),
        token: None,
        token_refresh_duration: None,
        token_check_interval: None,
        server_url: server_url.to_string(),
        quote_server_url: "https://quote.example.com/gateway".to_string(),
        tiger_public_key: String::new(),
        device_id: String::new(),
    }
}

// ---------- api_request ----------

#[test]
fn test_new_api_request() {
    let req = ApiRequest::new("market_state", r#"{"market":"US"}"#);
    assert_eq!(req.method, "market_state");
    assert_eq!(req.biz_content, r#"{"market":"US"}"#);
}

#[test]
fn test_new_api_request_empty_biz_content() {
    let req = ApiRequest::new("market_state", "{}");
    assert_eq!(req.method, "market_state");
    assert_eq!(req.biz_content, "{}");
}

#[test]
fn api_request_with_version_sets_version() {
    let req = ApiRequest::with_version("option_chain", "{}", "3.0");
    assert_eq!(req.method, "option_chain");
    assert_eq!(req.version, Some("3.0".to_string()));
    assert_eq!(ApiRequest::new("x", "{}").version, None);
}

// ---------- api_response ----------

#[test]
fn check_api_response_accepts_code_zero() {
    let resp = ApiResponse {
        code: 0,
        message: "success".to_string(),
        data: Some(serde_json::Value::String("US".to_string())),
        timestamp: Some(1234567890),
    };
    let ok = check_api_response(resp).unwrap();
    assert_eq!(ok.code, 0);
    assert_eq!(ok.message, "success");
    assert!(ok.data.is_some());
    assert_eq!(ok.timestamp, Some(1234567890));
}

#[test]
fn check_api_response_maps_error_code() {
    let resp = ApiResponse {
        code: 1000,
        message: "common_param_error".to_string(),
        data: None,
        timestamp: Some(1234567890),
    };
    match check_api_response(resp) {
        Err(TigerError::Api { code, message }) => {
            assert_eq!(code, 1000);
            assert_eq!(message, "common_param_error");
        }
        _ => panic!("expected an Api error"),
    }
}

// ---------- errors ----------

#[test]
fn test_classify_success() {
    assert_eq!(classify_error_code(0), ErrorCategory::Success);
}

#[test]
fn test_classify_rate_limit() {
    assert_eq!(classify_error_code(5), ErrorCategory::RateLimit);
}

#[test]
fn test_classify_common_param_error() {
    assert_eq!(classify_error_code(1000), ErrorCategory::CommonParamError);
    assert_eq!(classify_error_code(1005), ErrorCategory::CommonParamError);
    assert_eq!(classify_error_code(1009), ErrorCategory::CommonParamError);
}

#[test]
fn test_classify_biz_param_error() {
    assert_eq!(classify_error_code(1010), ErrorCategory::BizParamError);
    assert_eq!(classify_error_code(1050), ErrorCategory::BizParamError);
    assert_eq!(classify_error_code(1099), ErrorCategory::BizParamError);
}

#[test]
fn test_classify_trade_errors() {
    assert_eq!(classify_error_code(1100), ErrorCategory::TradeGlobalError);
    assert_eq!(classify_error_code(1200), ErrorCategory::TradePrimeError);
    assert_eq!(classify_error_code(1300), ErrorCategory::TradeSimulationError);
}

#[test]
fn test_classify_quote_errors() {
    assert_eq!(classify_error_code(2100), ErrorCategory::QuoteStockError);
    assert_eq!(classify_error_code(2200), ErrorCategory::QuoteOptionError);
    assert_eq!(classify_error_code(2300), ErrorCategory::QuoteFutureError);
}

#[test]
fn test_classify_token_error() {
    assert_eq!(classify_error_code(2400), ErrorCategory::TokenError);
}

#[test]
fn test_classify_permission_error() {
    assert_eq!(classify_error_code(4000), ErrorCategory::PermissionError);
}

#[test]
fn test_classify_unknown_error() {
    assert_eq!(classify_error_code(9999), ErrorCategory::UnknownError);
    assert_eq!(classify_error_code(-1), ErrorCategory::UnknownError);
}

#[test]
fn error_code_classification_correctness() {
    let table = [
        (0, ErrorCategory::Success),
        (5, ErrorCategory::RateLimit),
        (1000, ErrorCategory::CommonParamError),
        (1005, ErrorCategory::CommonParamError),
        (1009, ErrorCategory::CommonParamError),
        (1010, ErrorCategory::BizParamError),
        (1050, ErrorCategory::BizParamError),
        (1099, ErrorCategory::BizParamError),
        (1100, ErrorCategory::TradeGlobalError),
        (1150, ErrorCategory::TradeGlobalError),
        (1199, ErrorCategory::TradeGlobalError),
        (1200, ErrorCategory::TradePrimeError),
        (1250, ErrorCategory::TradePrimeError),
        (1299, ErrorCategory::TradePrimeError),
        (1300, ErrorCategory::TradeSimulationError),
        (1500, ErrorCategory::TradeSimulationError),
        (2099, ErrorCategory::TradeSimulationError),
        (2100, ErrorCategory::QuoteStockError),
        (2150, ErrorCategory::QuoteStockError),
        (2199, ErrorCategory::QuoteStockError),
        (2200, ErrorCategory::QuoteOptionError),
        (2250, ErrorCategory::QuoteOptionError),
        (2299, ErrorCategory::QuoteOptionError),
        (2300, ErrorCategory::QuoteFutureError),
        (2350, ErrorCategory::QuoteFutureError),
        (2399, ErrorCategory::QuoteFutureError),
        (2400, ErrorCategory::TokenError),
        (3000, ErrorCategory::TokenError),
        (3999, ErrorCategory::TokenError),
        (4000, ErrorCategory::PermissionError),
        (4500, ErrorCategory::PermissionError),
        (4999, ErrorCategory::PermissionError),
    ];
    for (code, expected) in table {
        assert_eq!(classify_error_code(code), expected, "code {}", code);
    }
}

#[test]
fn classify_range_edges() {
    assert_eq!(classify_error_code(4), ErrorCategory::UnknownError);
    assert_eq!(classify_error_code(999), ErrorCategory::UnknownError);
    assert_eq!(classify_error_code(5000), ErrorCategory::UnknownError);
    assert_eq!(classify_error_code(i32::MIN), ErrorCategory::UnknownError);
    assert_eq!(classify_error_code(i32::MAX), ErrorCategory::UnknownError);
}

// ---------- retry ----------

#[test]
fn test_default_retry_policy() {
    let policy = RetryPolicy::default();
    assert_eq!(policy.max_retries, 5);
    assert_eq!(policy.max_retry_time, Duration::from_secs(60));
    assert_eq!(policy.base_delay, Duration::from_secs(1));
    assert_eq!(policy.max_delay, Duration::from_secs(16));
}

#[test]
fn test_backoff_sequence() {
    let policy = RetryPolicy::default();
    assert_eq!(policy.calculate_backoff(0), Duration::from_secs(1));
    assert_eq!(policy.calculate_backoff(1), Duration::from_secs(2));
    assert_eq!(policy.calculate_backoff(2), Duration::from_secs(4));
    assert_eq!(policy.calculate_backoff(3), Duration::from_secs(8));
    assert_eq!(policy.calculate_backoff(4), Duration::from_secs(16));
}

#[test]
fn test_backoff_capped_at_max() {
    let policy = RetryPolicy::default();
    assert_eq!(policy.calculate_backoff(5), Duration::from_secs(16));
    assert_eq!(policy.calculate_backoff(10), Duration::from_secs(16));
}

#[test]
fn exponential_backoff_calculation() {
    let policy = RetryPolicy::default();
    for retry_count in 0u32..20u32 {
        let expected_secs = (2u64.pow(retry_count)).min(16);
        assert_eq!(policy.calculate_backoff(retry_count), Duration::from_secs(expected_secs));
    }
}

#[test]
fn backoff_with_large_counts_and_custom_delays() {
    let policy = RetryPolicy::default();
    assert_eq!(policy.calculate_backoff(200), Duration::from_secs(16));
    assert_eq!(policy.calculate_backoff(u32::MAX), Duration::from_secs(16));
    let custom = RetryPolicy {
        max_retries: 3,
        max_retry_time: Duration::from_secs(10),
        base_delay: Duration::from_millis(250),
        max_delay: Duration::from_secs(3),
    };
    assert_eq!(custom.calculate_backoff(0), Duration::from_millis(250));
    assert_eq!(custom.calculate_backoff(2), Duration::from_millis(1000));
    assert_eq!(custom.calculate_backoff(3), Duration::from_millis(2000));
    assert_eq!(custom.calculate_backoff(4), Duration::from_secs(3));
    let zero = RetryPolicy {
        max_retries: 1,
        max_retry_time: Duration::from_secs(1),
        base_delay: Duration::from_secs(0),
        max_delay: Duration::from_secs(0),
    };
    assert_eq!(zero.calculate_backoff(1000), Duration::from_secs(0));
}

#[test]
fn test_trade_operations_skip_retry() {
    let policy = RetryPolicy::default();
    assert!(!policy.should_retry("place_order"));
    assert!(!policy.should_retry("modify_order"));
    assert!(!policy.should_retry("cancel_order"));
}

#[test]
fn test_non_trade_operations_allow_retry() {
    let policy = RetryPolicy::default();
    assert!(policy.should_retry("market_state"));
    assert!(policy.should_retry("quote_real_time"));
    assert!(policy.should_retry("get_position"));
}

#[test]
fn test_is_trade_operation() {
    assert!(is_trade_operation("place_order"));
    assert!(is_trade_operation("modify_order"));
    assert!(is_trade_operation("cancel_order"));
    assert!(!is_trade_operation("market_state"));
    assert!(!is_trade_operation(""));
}

#[test]
fn trade_operations_skip_retry() {
    let policy = RetryPolicy::default();
    let cases = [
        ("place_order", true),
        ("modify_order", true),
        ("cancel_order", true),
        ("market_state", false),
        ("quote_real_time", false),
        ("get_position", false),
        ("get_orders", false),
        ("get_assets", false),
        ("kline", false),
        ("option_chain", false),
    ];
    for (method, is_trade) in cases {
        assert_eq!(policy.should_retry(method), !is_trade);
        assert_eq!(is_trade_operation(method), is_trade);
    }
}

#[test]
fn retry_attempts_and_waits() {
    let policy = RetryPolicy::default();
    assert_eq!(policy.max_attempts("market_state"), 6);
    assert_eq!(policy.max_attempts("place_order"), 1);
    assert_eq!(policy.next_attempt("place_order", 0, Duration::from_secs(0)), None);
    assert_eq!(
        policy.next_attempt("market_state", 0, Duration::from_secs(0)),
        Some(Duration::from_secs(1))
    );
    assert_eq!(
        policy.next_attempt("market_state", 3, Duration::from_secs(10)),
        Some(Duration::from_secs(8))
    );
    // the wait would pass the total retry time
    assert_eq!(policy.next_attempt("market_state", 4, Duration::from_secs(50)), None);
    // no tries left
    assert_eq!(policy.next_attempt("market_state", 5, Duration::from_secs(0)), None);
}

// ---------- http decisions ----------

#[test]
fn test_user_agent() {
    assert_eq!(user_agent("0.1.0"), format!("openapi-rust-sdk-{}", "0.1.0"));
}

#[test]
fn test_user_agent_format() {
    let ua = user_agent("0.1.0");
    assert!(ua.starts_with("openapi-rust-sdk-"));
    assert!(ua.len() > "openapi-rust-sdk-".len());
}

#[test]
fn test_execute_rejects_empty_api_method() {
    match validate_execute_args("", r#"{"market":"US"}"#) {
        Err(TigerError::Config(msg)) => assert!(msg.contains("api_method")),
        other => panic!("expected a Config error, got {:?}", other),
    }
}

#[test]
fn test_execute_rejects_invalid_json() {
    match validate_execute_args("market_state", "not json") {
        Err(TigerError::Config(msg)) => assert!(msg.contains("JSON")),
        other => panic!("expected a Config error, got {:?}", other),
    }
}

#[test]
fn execute_args_accept_json_body() {
    assert!(validate_execute_args("market_state", r#"{"market":"US"}"#).is_ok());
    assert!(validate_execute_args("market_state", "[]").is_ok());
}

#[test]
fn common_params_hold_every_field() {
    let mut config = test_config("https://example.com/gateway");
    let p = build_common_params(&config, "market_state", "{}", None, "2024-01-02 03:04:05");
    assert_eq!(p.get("tiger_id").unwrap(), "test_tiger_id");
    assert_eq!(p.get("method").unwrap(), "market_state");
    assert_eq!(p.get("charset").unwrap(), "UTF-8");
    assert_eq!(p.get("sign_type").unwrap(), "RSA");
    assert_eq!(p.get("timestamp").unwrap(), "2024-01-02 03:04:05");
    assert_eq!(p.get("version").unwrap(), "2.0");
    assert_eq!(p.get("biz_content").unwrap(), "{}");
    assert!(p.get("device_id").is_none());
    assert_eq!(p.len(), 7);
    config.device_id = "AA:BB".to_string();
    let p = build_common_params(&config, "option_chain", "{}", Some("3.0"), "t");
    assert_eq!(p.get("version").unwrap(), "3.0");
    assert_eq!(p.get("device_id").unwrap(), "AA:BB");
    assert_eq!(p.len(), 8);
}

#[test]
fn request_target_and_token_header() {
    let mut config = test_config("https://trade.example.com/gateway");
    assert_eq!(request_url(&config, None), "https://trade.example.com/gateway");
    assert_eq!(request_url(&config, Some("https://q.example.com")), "https://q.example.com");
    assert_eq!(authorization(&config), None);
    config.token = Some(String::new());
    assert_eq!(authorization(&config), None);
    config.token = Some("my_test_token_value".to_string());
    assert_eq!(authorization(&config), Some("my_test_token_value".to_string()));
}

#[test]
fn token_reply_outcomes() {
    assert_eq!(
        token_from_reply(Some(0), Some("success"), Some("new_token_abc123")).unwrap(),
        "new_token_abc123"
    );
    match token_from_reply(Some(40001), Some("unauthorized"), None) {
        Err(TigerError::Config(m)) => {
            assert_eq!(m, "token 刷新接口返回错误: code=40001, message=unauthorized")
        }
        other => panic!("unexpected {:?}", other),
    }
    match token_from_reply(None, None, None) {
        Err(TigerError::Config(m)) => assert_eq!(m, "token 刷新接口返回错误: code=-1, message=unknown"),
        other => panic!("unexpected {:?}", other),
    }
    match token_from_reply(Some(0), Some("success"), Some("")) {
        Err(TigerError::Config(m)) => assert_eq!(m, "服务端返回空 token"),
        other => panic!("unexpected {:?}", other),
    }
}

#[test]
fn integer_text() {
    assert_eq!(i64_text(0), "0");
    assert_eq!(i64_text(-1), "-1");
    assert_eq!(i64_text(40001), "40001");
    assert_eq!(i64_text(i64::MIN), "-9223372036854775808");
    assert_eq!(i64_text(i64::MAX), "9223372036854775807");
}

#[test]
fn auto_refresh_manager_setup() {
    let mut config = test_config("https://example.com");
    assert!(auto_refresh_manager(&config).is_none());
    config.token_refresh_duration = Some(Duration::from_secs(0));
    assert!(auto_refresh_manager(&config).is_none());
    config.token_refresh_duration = Some(Duration::from_secs(10));
    config.token = Some("tok".to_string());
    let tm = auto_refresh_manager(&config).unwrap();
    assert_eq!(tm.get_token(), "tok");
    assert_eq!(tm.check_interval_secs(), 300);
    assert!(!tm.file_enabled());
    config.token_check_interval = Some(Duration::from_secs(50));
    let tm = auto_refresh_manager(&config).unwrap();
    assert_eq!(tm.check_interval_secs(), 50);
}

// The reply's `data` field is modelled as `ReplyData`: the JSON reading is
// done by the caller, the choice of token here.

#[test]
fn test_extract_token_owned_object_data() {
    assert_eq!(token_in_reply_data(ReplyData::Value(Some("abc123".to_string()))), "abc123");
}

#[test]
fn test_extract_token_owned_double_encoded_string() {
    assert_eq!(token_in_reply_data(ReplyData::Encoded(Some(Some("xyz789".to_string())))), "xyz789");
}

#[test]
fn test_extract_token_owned_data_missing() {
    assert_eq!(token_in_reply_data(ReplyData::Missing), "");
}

#[test]
fn test_extract_token_owned_token_missing() {
    assert_eq!(token_in_reply_data(ReplyData::Value(None)), "");
}

#[test]
fn test_extract_token_owned_double_encoded_invalid_json() {
    assert_eq!(token_in_reply_data(ReplyData::Encoded(None)), "");
}

#[test]
fn test_extract_token_owned_double_encoded_no_token_field() {
    assert_eq!(token_in_reply_data(ReplyData::Encoded(Some(None))), "");
}

fn config_text(r: Result<String, TigerError>) -> String {
    match r {
        Err(TigerError::Config(m)) => m,
        other => panic!("unexpected {:?}", other),
    }
}

#[test]
fn token_reply_bodies() {
    let ok = br#"{"code":0,"message":"success","data":{"token":"new_token_value"}}"#;
    assert_eq!(token_from_reply_body(ok).unwrap(), "new_token_value");
    let twice = br#"{"code":0,"message":"success","data":"{\"token\":\"double_encoded_token\"}"}"#;
    assert_eq!(token_from_reply_body(twice).unwrap(), "double_encoded_token");
    let err = br#"{"code":40001,"message":"invalid tiger_id"}"#;
    assert_eq!(
        config_text(token_from_reply_body(err)),
        "token 刷新接口返回错误: code=40001, message=invalid tiger_id"
    );
    let empty = br#"{"code":0,"message":"success","data":{"token":""}}"#;
    assert_eq!(config_text(token_from_reply_body(empty)), "服务端返回空 token");
    let null_data = br#"{"code":0,"message":"success","data":null}"#;
    assert_eq!(config_text(token_from_reply_body(null_data)), "服务端返回空 token");
    assert!(config_text(token_from_reply_body(b"<html>")).starts_with("解析 token 响应失败: "));
}

#[test]
fn reply_signatures() {
    assert_eq!(reply_sign(br#"{"code":0,"sign":"abc"}"#).unwrap(), Some("abc".to_string()));
    assert_eq!(reply_sign(br#"{"code":0,"sign":""}"#).unwrap(), None);
    assert_eq!(reply_sign(br#"{"code":0}"#).unwrap(), None);
    assert!(config_text(reply_sign(b"oops").map(|_| String::new()))
        .starts_with("failed to parse response JSON for sign verification: "));
}
