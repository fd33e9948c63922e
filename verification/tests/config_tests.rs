use base64::Engine;
use tigeropen::config::client_config::{ClientConfig, ClientConfigBuilder, EnvValues};
use tigeropen::config::config_parser::{
    ends_with_continuation, parse_key_value, parse_properties, serialize_properties, Properties,
};
use tigeropen::config::domain::{
    domain_conf_from_body,
    domain_query_url, resolve_dynamic_quote_server_url, resolve_dynamic_server_url,
};
use tigeropen::config::token_manager::{
    should_refresh_token, token_file_content, TokenManager, TokenSource,
};
use tigeropen::duration::Duration;
use tigeropen::error::TigerError;
use tigeropen::model::enums::Language;

// ---------- properties ----------

#[test]
fn test_parse_basic_key_value() {
    let content = "tiger_id=test123\nprivate_key=abc456\n";
    let props = parse_properties(content).unwrap();
    assert_eq!(props.get("tiger_id").unwrap(), "test123");
    assert_eq!(props.get("private_key").unwrap(), "abc456");
}

#[test]
fn test_parse_colon_separator() {
    let content = "tiger_id:test123\nprivate_key:abc456\n";
    let props = parse_properties(content).unwrap();
    assert_eq!(props.get("tiger_id").unwrap(), "test123");
    assert_eq!(props.get("private_key").unwrap(), "abc456");
}

#[test]
fn test_parse_comments() {
    let content = "# 这是注释\ntiger_id=test123\n! 这也是注释\nprivate_key=abc456\n";
    let props = parse_properties(content).unwrap();
    assert_eq!(props.len(), 2);
    assert_eq!(props.get("tiger_id").unwrap(), "test123");
    assert_eq!(props.get("private_key").unwrap(), "abc456");
}

#[test]
fn test_parse_empty_lines() {
    let content = "\ntiger_id=test123\n\n\nprivate_key=abc456\n\n";
    let props = parse_properties(content).unwrap();
    assert_eq!(props.len(), 2);
}

#[test]
fn test_parse_continuation() {
    let content = "private_key=MIIEvgIBADANBg\\\n  kqhkiG9w0BAQEF\\\n  AASCBKgwggSk\n";
    let props = parse_properties(content).unwrap();
    assert_eq!(
        props.get("private_key").unwrap(),
        "MIIEvgIBADANBgkqhkiG9w0BAQEFAASCBKgwggSk"
    );
}

#[test]
fn test_parse_continuation_with_comment() {
    let content = "key=value1\\\n# this is a comment\nkey2=value2\n";
    let props = parse_properties(content).unwrap();
    assert_eq!(props.get("key").unwrap(), "value1");
    assert_eq!(props.get("key2").unwrap(), "value2");
}

#[test]
fn test_parse_escaped_backslash_no_continuation() {
    let content = "path=C:\\\\Windows\\\\\nother=val\n";
    let props = parse_properties(content).unwrap();
    assert_eq!(props.get("path").unwrap(), "C:\\\\Windows\\\\");
    assert_eq!(props.get("other").unwrap(), "val");
}

#[test]
fn test_parse_single_backslash_continuation() {
    let content = "key=part1\\\npart2\n";
    let props = parse_properties(content).unwrap();
    assert_eq!(props.get("key").unwrap(), "part1part2");
}

#[test]
fn test_parse_trim_spaces() {
    let content = "  tiger_id = test123  \n  private_key = abc456  \n";
    let props = parse_properties(content).unwrap();
    assert_eq!(props.get("tiger_id").unwrap(), "test123");
    assert_eq!(props.get("private_key").unwrap(), "abc456");
}

#[test]
fn test_parse_value_with_equals() {
    let content = "private_key=abc=def=ghi\n";
    let props = parse_properties(content).unwrap();
    assert_eq!(props.get("private_key").unwrap(), "abc=def=ghi");
}

#[test]
fn test_parse_empty_content() {
    let content = "";
    let props = parse_properties(content).unwrap();
    assert!(props.is_empty());
}

#[test]
fn later_key_wins_and_crlf_lines() {
    let props = parse_properties("a=1\r\nb=2\r\na=3").unwrap();
    assert_eq!(props.get("a").unwrap(), "3");
    assert_eq!(props.get("b").unwrap(), "2");
    assert_eq!(props.len(), 2);
    // a line without a separator holds no pair
    assert!(parse_properties("lonely\n").unwrap().is_empty());
    // a continued line cut off by the end of input still counts
    assert_eq!(parse_properties("k=v\\").unwrap().get("k").unwrap(), "v");
}

#[test]
fn continuation_and_key_value_helpers() {
    assert!(ends_with_continuation("abc\\"));
    assert!(!ends_with_continuation("abc\\\\"));
    assert!(ends_with_continuation("abc\\\\\\"));
    assert!(!ends_with_continuation(""));
    assert_eq!(parse_key_value(" k : v "), Some(("k".to_string(), "v".to_string())));
    assert_eq!(parse_key_value("=v"), None);
    assert_eq!(parse_key_value("novalue"), None);
    assert_eq!(parse_key_value("k="), Some(("k".to_string(), String::new())));
}

#[test]
fn properties_round_trip() {
    let inputs: Vec<Vec<(&str, &str)>> = vec![
        vec![("tiger_id", "20150001"), ("account", "DU123456"), ("license", "TBNZ")],
        vec![("z_key", "last value"), ("a_key", "first/value@x+y-z"), ("M1", "m.1")],
        vec![("only", "1")],
    ];
    for pairs in inputs {
        let mut props = Properties::new();
        for (k, v) in &pairs {
            props.insert(k.to_string(), v.to_string());
        }
        let text = serialize_properties(&props);
        let parsed = parse_properties(&text).unwrap();
        assert_eq!(parsed.len(), pairs.len());
        for (k, v) in &pairs {
            assert_eq!(parsed.get(k).unwrap(), v);
        }
    }
}

#[test]
fn serialize_sorts_lines() {
    let mut props = Properties::new();
    props.insert("b".to_string(), "2".to_string());
    props.insert("a".to_string(), "1".to_string());
    assert_eq!(serialize_properties(&props), "a=1\nb=2");
}

// ---------- client settings ----------

fn no_env() -> EnvValues {
    EnvValues { tiger_id: None, private_key: None, account: None, token: None }
}

/// Runs the builder's stages as a caller without files, environment,
/// domain service or network address would.
fn build_plain(mut b: ClientConfigBuilder, env: EnvValues) -> Result<ClientConfig, TigerError> {
    b.apply_env(&env);
    b.build(None, "")
}

#[test]
fn test_builder_basic_fields() {
    let config = build_plain(
        ClientConfig::builder().tiger_id("test_id").private_key("test_key").account("DU123456"),
        no_env(),
    )
    .unwrap();
    assert_eq!(config.tiger_id, "test_id");
    assert_eq!(config.private_key, "test_key");
    assert_eq!(config.account, "DU123456");
}

#[test]
fn test_builder_defaults() {
    let config =
        build_plain(ClientConfig::builder().tiger_id("test_id").private_key("test_key"), no_env())
            .unwrap();
    assert_eq!(config.language, Language::ZhCn);
    assert_eq!(config.timeout, Duration::from_secs(15));
    assert_eq!(config.server_url, "https://openapi.tigerfintech.com/gateway");
    assert_eq!(config.quote_server_url, "https://openapi.tigerfintech.com/gateway");
    assert!(config.tiger_public_key.starts_with("MIGfMA0GCSqGSIb3DQEBAQUAA4GNADCBiQKBgQDNF3G8SoEcCZh2rshUbayDgLLrj6rKgzNMxDL2HSnKcB0"));
    assert_eq!(config.account, "");
}

#[test]
fn test_builder_missing_tiger_id() {
    let b = ClientConfig::builder().properties_file(None).private_key("test_key");
    assert!(!b.needs_auto_discover());
    let result = build_plain(b, no_env());
    assert!(result.is_err());
    assert!(matches!(result, Err(TigerError::Config(_))));
}

#[test]
fn test_builder_missing_private_key() {
    let b = ClientConfig::builder().properties_file(None).tiger_id("test_id");
    let result = build_plain(b, no_env());
    assert!(result.is_err());
    assert!(matches!(result, Err(TigerError::Config(_))));
}

#[test]
fn test_env_overrides_builder() {
    let env = EnvValues {
        tiger_id: Some("env_tiger_id".to_string()),
        private_key: Some("env_private_key".to_string()),
        account: Some("env_account".to_string()),
        token: None,
    };
    let config = build_plain(
        ClientConfig::builder()
            .tiger_id("builder_tiger_id")
            .private_key("builder_private_key")
            .account("builder_account"),
        env,
    )
    .unwrap();
    assert_eq!(config.tiger_id, "env_tiger_id");
    assert_eq!(config.private_key, "env_private_key");
    assert_eq!(config.account, "env_account");
}

#[test]
fn test_builder_optional_fields() {
    let config = build_plain(
        ClientConfig::builder()
            .tiger_id("test_id")
            .private_key("test_key")
            .license("TBNZ")
            .language(Language::EnUs)
            .timezone("America/New_York")
            .timeout(Duration::from_secs(30))
            .token("my_token")
            .token_refresh_duration(Duration::from_secs(3600)),
        no_env(),
    )
    .unwrap();
    assert_eq!(config.license, Some("TBNZ".to_string()));
    assert_eq!(config.language, Language::EnUs);
    assert_eq!(config.timezone, Some("America/New_York".to_string()));
    assert_eq!(config.timeout, Duration::from_secs(30));
    assert_eq!(config.token, Some("my_token".to_string()));
    assert_eq!(config.token_refresh_duration, Some(Duration::from_secs(3600)));
}

#[test]
fn test_builder_from_properties_file() {
    let content = "tiger_id=file_tiger_id\nprivate_key=file_private_key\naccount=file_account\nlicense=TBHK\n";
    let config =
        build_plain(ClientConfig::builder().properties_file(Some(content)), no_env()).unwrap();
    assert_eq!(config.tiger_id, "file_tiger_id");
    assert_eq!(config.private_key, "file_private_key");
    assert_eq!(config.account, "file_account");
    assert_eq!(config.license, Some("TBHK".to_string()));
}

#[test]
fn test_env_only_overrides_when_set() {
    let env = EnvValues {
        tiger_id: Some("env_tiger_id".to_string()),
        private_key: None,
        account: Some(String::new()),
        token: None,
    };
    let config = build_plain(
        ClientConfig::builder()
            .tiger_id("builder_tiger_id")
            .private_key("builder_private_key")
            .account("builder_account"),
        env,
    )
    .unwrap();
    assert_eq!(config.tiger_id, "env_tiger_id");
    assert_eq!(config.private_key, "builder_private_key");
    assert_eq!(config.account, "builder_account");
}

#[test]
fn client_config_field_round_trip() {
    for (id, key, account, secs) in [("a", "b", "c", 1u64), ("tiger_1", "KEY_2", "DU_3", 299)] {
        let config = build_plain(
            ClientConfig::builder()
                .tiger_id(id)
                .private_key(key)
                .account(account)
                .timeout(Duration::from_secs(secs)),
            no_env(),
        )
        .unwrap();
        assert_eq!(config.tiger_id, id);
        assert_eq!(config.private_key, key);
        assert_eq!(config.account, account);
        assert_eq!(config.timeout, Duration::from_secs(secs));
    }
}

#[test]
fn properties_fill_only_unset_fields() {
    let mut props = Properties::new();
    props.insert("tiger_id".to_string(), "file_id".to_string());
    props.insert("private_key_pk1".to_string(), "pk1".to_string());
    props.insert("private_key_pk8".to_string(), "pk8".to_string());
    props.insert("language".to_string(), "zh_TW".to_string());
    props.insert("timezone".to_string(), "Asia/Hong_Kong".to_string());
    let mut b = ClientConfig::builder().tiger_id("setter_id");
    assert!(b.needs_auto_discover());
    b.apply_properties(&props);
    let config = b.build(None, "").unwrap();
    assert_eq!(config.tiger_id, "setter_id");
    assert_eq!(config.private_key, "pk8");
    assert_eq!(config.language, Language::ZhTw);
    assert_eq!(config.timezone, Some("Asia/Hong_Kong".to_string()));

    let mut props2 = Properties::new();
    props2.insert("tiger_id".to_string(), "x".to_string());
    props2.insert("private_key".to_string(), "y".to_string());
    props2.insert("language".to_string(), "fr_FR".to_string());
    let mut b2 = ClientConfig::builder();
    b2.apply_properties(&props2);
    let config2 = b2.build(None, "").unwrap();
    assert_eq!(config2.language, Language::ZhCn);
}

#[test]
fn token_sources_in_order() {
    let mut b = ClientConfig::builder().tiger_id("i").private_key("k");
    b.apply_env(&EnvValues { tiger_id: None, private_key: None, account: None, token: Some(String::new()) });
    assert!(b.needs_token());
    b.offer_token(Some(String::new()));
    assert!(b.needs_token());
    b.offer_token(Some("loader_token".to_string()));
    assert!(!b.needs_token());
    b.offer_token(Some("file_token".to_string()));
    let config = b.build(None, "").unwrap();
    assert_eq!(config.token, Some("loader_token".to_string()));
}

#[test]
fn dynamic_domains_pick_gateways() {
    let mut domains = Properties::new();
    domains.insert("TBNZ".to_string(), "https://tbnz.example.com".to_string());
    domains.insert("TBNZ-QUOTE".to_string(), "https://quote.tbnz.example.com".to_string());
    let b = ClientConfig::builder().tiger_id("i").private_key("k").license("TBNZ");
    assert!(b.needs_domain_query());
    assert!(b.needs_device_id());
    let config = b.build(Some(&domains), "AA:BB:CC:DD:EE:FF").unwrap();
    assert_eq!(config.server_url, "https://tbnz.example.com/gateway");
    assert_eq!(config.quote_server_url, "https://quote.tbnz.example.com/gateway");
    assert_eq!(config.device_id, "AA:BB:CC:DD:EE:FF");

    let b = ClientConfig::builder()
        .tiger_id("i")
        .private_key("k")
        .license("TBNZ")
        .quote_server_url("https://my-quote")
        .device_id("dev");
    let config = b.build(Some(&domains), "ignored").unwrap();
    assert_eq!(config.quote_server_url, "https://my-quote");
    assert_eq!(config.device_id, "dev");

    let b = ClientConfig::builder().tiger_id("i").private_key("k").enable_dynamic_domain(false);
    assert!(!b.needs_domain_query());
    let config = b.build(Some(&domains), "").unwrap();
    assert_eq!(config.server_url, "https://openapi.tigerfintech.com/gateway");
}

#[test]
fn missing_fields_messages() {
    match ClientConfig::builder().private_key("k").build(None, "") {
        Err(TigerError::Config(m)) => assert_eq!(
            m,
            "tiger_id is required. Set it via builder().tiger_id(), env var TIGEROPEN_TIGER_ID, or a properties file"
        ),
        _ => panic!("expected a Config error"),
    }
    match ClientConfig::builder().tiger_id("i").private_key("").build(None, "") {
        Err(TigerError::Config(m)) => assert!(m.starts_with("private_key is required")),
        _ => panic!("expected a Config error"),
    }
}

// ---------- dynamic domains ----------

fn make_conf(pairs: &[(&str, &str)]) -> Properties {
    let mut p = Properties::new();
    for (k, v) in pairs {
        p.insert(k.to_string(), v.to_string());
    }
    p
}

#[test]
fn test_resolve_server_url_empty_map_returns_none() {
    let conf = Properties::new();
    assert_eq!(resolve_dynamic_server_url(&conf, None), None);
}

#[test]
fn test_resolve_server_url_license_key() {
    let conf = make_conf(&[("TBNZ", "https://tbnz.example.com")]);
    let url = resolve_dynamic_server_url(&conf, Some("TBNZ")).unwrap();
    assert_eq!(url, "https://tbnz.example.com/gateway");
}

#[test]
fn test_resolve_server_url_falls_back_to_common() {
    let conf = make_conf(&[("COMMON", "https://common.example.com")]);
    let url = resolve_dynamic_server_url(&conf, Some("TBNZ")).unwrap();
    assert_eq!(url, "https://common.example.com/gateway");
}

#[test]
fn test_resolve_server_url_no_license_uses_common_key() {
    let conf = make_conf(&[("COMMON", "https://common.example.com")]);
    let url = resolve_dynamic_server_url(&conf, None).unwrap();
    assert_eq!(url, "https://common.example.com/gateway");
}

#[test]
fn test_resolve_server_url_license_present_takes_priority_over_common() {
    let conf = make_conf(&[
        ("TBNZ", "https://tbnz.example.com"),
        ("COMMON", "https://common.example.com"),
    ]);
    let url = resolve_dynamic_server_url(&conf, Some("TBNZ")).unwrap();
    assert_eq!(url, "https://tbnz.example.com/gateway");
}

#[test]
fn test_resolve_server_url_non_string_value_ignored() {
    // The domain map keeps text values only: a licence key with a number is
    // absent from it, and COMMON is missing too.
    let conf = make_conf(&[]);
    assert_eq!(resolve_dynamic_server_url(&conf, Some("TBNZ")), None);
}

#[test]
fn test_resolve_server_url_missing_key_and_missing_common_returns_none() {
    let conf = make_conf(&[("OTHER", "https://other.example.com")]);
    assert_eq!(resolve_dynamic_server_url(&conf, Some("TBNZ")), None);
}

#[test]
fn test_resolve_quote_url_empty_map_returns_none() {
    let conf = Properties::new();
    assert_eq!(resolve_dynamic_quote_server_url(&conf, None), None);
}

#[test]
fn test_resolve_quote_url_license_quote_key() {
    let conf = make_conf(&[("TBNZ-QUOTE", "https://quote.tbnz.example.com")]);
    let url = resolve_dynamic_quote_server_url(&conf, Some("TBNZ")).unwrap();
    assert_eq!(url, "https://quote.tbnz.example.com/gateway");
}

#[test]
fn test_resolve_quote_url_falls_back_to_common() {
    let conf = make_conf(&[("COMMON", "https://common.example.com")]);
    let url = resolve_dynamic_quote_server_url(&conf, Some("TBNZ")).unwrap();
    assert_eq!(url, "https://common.example.com/gateway");
}

#[test]
fn test_resolve_quote_url_no_license_falls_back_to_common() {
    let conf = make_conf(&[("COMMON", "https://common.example.com")]);
    let url = resolve_dynamic_quote_server_url(&conf, None).unwrap();
    assert_eq!(url, "https://common.example.com/gateway");
}

#[test]
fn test_resolve_quote_url_license_quote_takes_priority_over_common() {
    let conf = make_conf(&[
        ("TBNZ-QUOTE", "https://quote.tbnz.example.com"),
        ("COMMON", "https://common.example.com"),
    ]);
    let url = resolve_dynamic_quote_server_url(&conf, Some("TBNZ")).unwrap();
    assert_eq!(url, "https://quote.tbnz.example.com/gateway");
}

#[test]
fn test_resolve_quote_url_missing_all_returns_none() {
    let conf = make_conf(&[("OTHER", "https://other.example.com")]);
    assert_eq!(resolve_dynamic_quote_server_url(&conf, Some("TBNZ")), None);
}

#[test]
fn test_resolve_quote_url_non_string_value_ignored() {
    // The null value of TBNZ-QUOTE is not a text, so only COMMON is kept.
    let conf = make_conf(&[("COMMON", "https://c.example.com")]);
    let url = resolve_dynamic_quote_server_url(&conf, Some("TBNZ")).unwrap();
    assert_eq!(url, "https://c.example.com/gateway");
}

#[test]
fn domain_query_address() {
    assert_eq!(domain_query_url(None), "https://cg.play-analytics.com");
    assert_eq!(domain_query_url(Some("TBNZ")), "https://cg.play-analytics.com");
    assert_eq!(domain_query_url(Some("TBUS")), "https://cg.play-analytics.com?appName=tradeup");
}

// ---------- tokens ----------

fn file_text(content: &str) -> TokenSource {
    TokenSource::File(Ok(content.to_string()))
}

#[test]
fn test_load_token() {
    let mut m = TokenManager::with_file_path("/tmp/test_rust_token.properties");
    let token = m.load_token(file_text("token=test_token_123\n")).unwrap();
    assert_eq!(token, "test_token_123");
    assert_eq!(m.get_token(), "test_token_123");
}

#[test]
fn test_load_token_file_not_found() {
    let mut m = TokenManager::with_file_path("/nonexistent/path");
    let err = TigerError::Config("无法打开配置文件 /nonexistent/path: not found".to_string());
    assert!(m.load_token(TokenSource::File(Err(err))).is_err());
    assert_eq!(m.get_token(), "");
}

#[test]
fn test_load_token_no_field() {
    let mut m = TokenManager::with_file_path("/tmp/test_rust_token_nofield.properties");
    match m.load_token(file_text("other_key=value\n")) {
        Err(TigerError::Config(msg)) => assert_eq!(msg, "Token 文件中未找到 token 字段"),
        other => panic!("unexpected {:?}", other),
    }
}

#[test]
fn test_load_token_via_custom_loader() {
    let mut m = TokenManager::new();
    let token = m.load_token(TokenSource::Loader(Ok("loader_token".to_string()))).unwrap();
    assert_eq!(token, "loader_token");
    assert_eq!(m.get_token(), "loader_token");
}

#[test]
fn loader_failures() {
    let mut m = TokenManager::new();
    match m.load_token(TokenSource::Loader(Ok(String::new()))) {
        Err(TigerError::Config(msg)) => assert_eq!(msg, "自定义 token 加载返回空值"),
        other => panic!("unexpected {:?}", other),
    }
    match m.load_token(TokenSource::Loader(Err("boom".to_string()))) {
        Err(TigerError::Config(msg)) => assert_eq!(msg, "自定义 token 加载失败: boom"),
        other => panic!("unexpected {:?}", other),
    }
}

#[test]
fn test_set_token_writes_file() {
    let mut m = TokenManager::with_file_path("/tmp/test_rust_token_set.properties");
    let write = m.set_token("new_token_456");
    assert_eq!(m.get_token(), "new_token_456");
    assert_eq!(write, Some("token=new_token_456\n".to_string()));
    assert_eq!(m.file_path(), "/tmp/test_rust_token_set.properties");
}

#[test]
fn test_set_token_no_file_when_file_disabled() {
    let mut m = TokenManager::new();
    assert_eq!(m.set_token("mem_only_token"), None);
    assert_eq!(m.get_token(), "mem_only_token");
}

#[test]
fn test_sync_token_no_file_no_callback() {
    let mut m = TokenManager::with_file_path("/tmp/test_rust_sync_token.properties");
    m.sync_token("sync_only");
    assert_eq!(m.get_token(), "sync_only");
}

#[test]
fn test_set_then_load() {
    let mut m1 = TokenManager::with_file_path("/tmp/test_rust_token_roundtrip.properties");
    let written = m1.set_token("round_trip_token").unwrap();
    let mut m2 = TokenManager::with_file_path("/tmp/test_rust_token_roundtrip.properties");
    let token = m2.load_token(TokenSource::File(Ok(written))).unwrap();
    assert_eq!(token, "round_trip_token");
}

/// A base64 token whose header is `gen_ts_ms,expire_ts_ms` (13 digits each).
fn make_test_token(gen_ts_ms: i64, expire_ts_ms: i64) -> String {
    let header = format!("{:013},{:013}", gen_ts_ms, expire_ts_ms);
    let payload = format!("{}some_extra_payload_data", header);
    base64::engine::general_purpose::STANDARD.encode(payload.as_bytes())
}

const NOW: i64 = 1_700_000_000;

#[test]
fn test_should_token_refresh_empty_token() {
    let m = TokenManager::with_refresh_duration(None, 30);
    assert!(!m.should_token_refresh(NOW));
}

#[test]
fn test_should_token_refresh_zero_duration() {
    let mut m = TokenManager::new();
    m.set_token("some_token");
    assert!(!m.should_token_refresh(NOW));
}

#[test]
fn test_should_token_refresh_expired() {
    let mut m = TokenManager::with_refresh_duration(None, 30);
    let old_gen_ts = (NOW - 100) * 1000;
    m.sync_token(&make_test_token(old_gen_ts, old_gen_ts + 3600000));
    assert!(m.should_token_refresh(NOW));
}

#[test]
fn test_should_token_refresh_not_expired() {
    let mut m = TokenManager::with_refresh_duration(None, 3600);
    let fresh_gen_ts = NOW * 1000;
    m.sync_token(&make_test_token(fresh_gen_ts, fresh_gen_ts + 7200000));
    assert!(!m.should_token_refresh(NOW));
}

#[test]
fn test_should_token_refresh_invalid_token() {
    let mut m = TokenManager::with_refresh_duration(None, 30);
    m.sync_token("not_valid_base64!!!");
    assert!(!m.should_token_refresh(NOW));
}

#[test]
fn test_with_refresh_duration_min_30() {
    let mut m = TokenManager::with_refresh_duration(None, 10);
    let old_gen_ts = (NOW - 31) * 1000;
    m.sync_token(&make_test_token(old_gen_ts, old_gen_ts + 1000));
    // 31 s old: due with the threshold raised to 30 s, not with 10 s kept.
    assert!(m.should_token_refresh(NOW));
    m.sync_token(&make_test_token((NOW - 20) * 1000, 0));
    assert!(!m.should_token_refresh(NOW));
}

#[test]
fn refresh_boundaries_and_headers() {
    let token = make_test_token((NOW - 100) * 1000, 0);
    assert!(!should_refresh_token(&token, 100, NOW));
    assert!(should_refresh_token(&token, 99, NOW));
    // a short token
    let short = base64::engine::general_purpose::STANDARD.encode(b"123,456");
    assert!(!should_refresh_token(&short, 1, NOW));
    // a header without a comma
    let no_comma = base64::engine::general_purpose::STANDARD.encode(b"1234567890123456789012345678");
    assert!(!should_refresh_token(&no_comma, 1, NOW));
    // a header with blanks around the time
    let padded = base64::engine::general_purpose::STANDARD.encode(b"  1000000000000 ,0000000000000xx");
    assert!(should_refresh_token(&padded, 30, NOW));
}

#[test]
fn check_interval_and_refresh_settings() {
    let mut m = TokenManager::new();
    assert_eq!(m.check_interval_secs(), 300);
    m.set_check_interval(0);
    assert_eq!(m.check_interval_secs(), 300);
    m.set_check_interval(7);
    assert_eq!(m.check_interval_secs(), 7);
    m.set_refresh_duration(5);
    m.sync_token(&make_test_token((NOW - 31) * 1000, 0));
    assert!(m.should_token_refresh(NOW));
    m.set_refresh_duration(0);
    assert!(!m.should_token_refresh(NOW));
    assert_eq!(TokenManager::new().file_path(), "tiger_openapi_token.properties");
}

#[test]
fn background_refresh_outcomes() {
    let mut m = TokenManager::with_refresh_duration(None, 30);
    m.set_token("old");
    assert_eq!(m.apply_refreshed(Ok("refreshed_token".to_string())), Some("refreshed_token".to_string()));
    assert_eq!(m.get_token(), "refreshed_token");
    assert_eq!(m.apply_refreshed(Ok(String::new())), None);
    assert_eq!(m.apply_refreshed(Err(TigerError::Network("down".to_string()))), None);
    assert_eq!(m.get_token(), "refreshed_token");
}

#[test]
fn token_file_text() {
    assert_eq!(token_file_content("abc"), "token=abc\n");
}

#[test]
fn domain_reply_text_entries_are_kept() {
    let body = br#"{"items":[{"openapi":{"COMMON":"https://openapi.tigerfintech.com","TBNZ":"https://nz.example","port":9883}}]}"#;
    let conf = domain_conf_from_body(body);
    assert_eq!(conf.len(), 2);
    assert_eq!(conf.get("COMMON").unwrap(), "https://openapi.tigerfintech.com");
    assert_eq!(conf.get("TBNZ").unwrap(), "https://nz.example");
    assert!(conf.get("port").is_none());
    assert_eq!(domain_conf_from_body(b"not json").len(), 0);
    assert_eq!(domain_conf_from_body(br#"{"items":[]}"#).len(), 0);
    assert_eq!(domain_conf_from_body(br#"{"items":[{"openapi":"x"}]}"#).len(), 0);
}
