use tigeropen::model::order::contract_leg;
use tigeropen::error::TigerError;
use tigeropen::model::quote_requests::{
    date_to_expiry_ms, expiry_from_instants, infer_option_timezone, parse_occ_identifier,
    LocalInstants, OptionChainItem, OptionContractItem, OptionKlineItem,
};
use tigeropen::model::serde_helpers::{parse_lenient_timestamp, parse_lenient_timestamp_text, LenientValue};

#[test]
fn test_contract_leg_helper() {
    let leg = contract_leg(
        "AAPL",
        "OPT",
        "BUY",
        1,
        Some("2024-01-19"),
        Some("150.0"),
        Some("CALL"),
    );
    assert_eq!(leg.symbol, Some("AAPL".to_string()));
    assert_eq!(leg.sec_type, Some("OPT".to_string()));
    assert_eq!(leg.ratio, Some(1));
    assert_eq!(leg.expiry, Some("2024-01-19".to_string()));
    assert_eq!(leg.strike, Some("150.0".to_string()));
    assert_eq!(leg.right, Some("CALL".to_string()));
}

#[test]
fn test_contract_leg_helper_no_optionals() {
    let leg = contract_leg("AAPL", "STK", "BUY", 1, None, None, None);
    assert_eq!(leg.expiry, None);
    assert_eq!(leg.strike, None);
    assert_eq!(leg.right, None);
}

fn text(s: &str) -> i64 {
    parse_lenient_timestamp(&LenientValue::Text(s.to_string()))
}

#[test]
fn integer_passes_through() {
    assert_eq!(parse_lenient_timestamp(&LenientValue::Integer(1700000000000)), 1_700_000_000_000);
    assert_eq!(parse_lenient_timestamp(&LenientValue::Integer(0)), 0);
    assert_eq!(parse_lenient_timestamp(&LenientValue::Integer(-1)), -1);
}

#[test]
fn null_becomes_zero() {
    assert_eq!(parse_lenient_timestamp(&LenientValue::Null), 0);
}

#[test]
fn numeric_string_parses() {
    assert_eq!(text("1700000000000"), 1_700_000_000_000);
    assert_eq!(text("  1700000000000  "), 1_700_000_000_000);
}

#[test]
fn naive_datetime_parses_as_utc() {
    assert_eq!(text("2026-05-08 22:57:14"), 1_778_281_034_000);
}

#[test]
fn rfc3339_z_parses() {
    assert_eq!(text("2026-05-08T22:57:14Z"), 1_778_281_034_000);
}

#[test]
fn rfc3339_with_offset_normalizes_to_utc() {
    assert_eq!(text("2026-05-08T22:57:14+08:00"), 1_778_252_234_000);
}

#[test]
fn empty_string_becomes_zero() {
    assert_eq!(text(""), 0);
    assert_eq!(text("   "), 0);
}

#[test]
fn unknown_string_falls_back_to_zero() {
    assert_eq!(text("not a date"), 0);
    assert_eq!(text("2026-13-45"), 0);
}

#[test]
fn unexpected_shape_falls_back_to_zero() {
    assert_eq!(parse_lenient_timestamp(&LenientValue::Other), 0);
}

#[test]
fn lenient_text_signs_and_trimming() {
    assert_eq!(parse_lenient_timestamp_text("-42"), -42);
    assert_eq!(parse_lenient_timestamp_text("+42"), 42);
    assert_eq!(parse_lenient_timestamp_text(" 2026-05-08 22:57:14 "), 1_778_281_034_000);
}

#[test]
fn option_time_zones() {
    assert_eq!(infer_option_timezone("AAPL"), "America/New_York");
    assert_eq!(infer_option_timezone("00700"), "Asia/Hong_Kong");
    assert_eq!(infer_option_timezone("TCH.HK"), "Asia/Hong_Kong");
}

#[test]
fn occ_identifier_parts() {
    let c = parse_occ_identifier("AAPL 240119C00150000").unwrap();
    assert_eq!(c.symbol, "AAPL");
    assert_eq!(c.expiry_date, "2024-01-19");
    assert_eq!(c.right, "Call");
    assert_eq!(c.strike, "150.000");
    let p = parse_occ_identifier("  SPY   250321P00412500 ").unwrap();
    assert_eq!(p.symbol, "SPY");
    assert_eq!(p.right, "Put");
    assert_eq!(p.strike, "412.500");
    assert!(parse_occ_identifier("AAPL").is_err());
    assert!(parse_occ_identifier("AAPL 240119X00150000").is_err());
    assert!(parse_occ_identifier("AAPL 2401").is_err());
}

#[test]
fn option_items_from_dates() {
    let item = OptionChainItem::from_date("AAPL", "2024-01-19").unwrap();
    assert_eq!(item.symbol, "AAPL");
    assert_eq!(item.expiry, 1705640400000);
    let hk = OptionChainItem::from_date("00700", "2024-01-19").unwrap();
    assert_eq!(hk.expiry, 1705593600000);
    assert!(OptionChainItem::from_date("AAPL", "2024/01/19").is_err());
    assert!(OptionChainItem::from_date_tz("AAPL", "2024-01-19", "Not/AZone").is_err());
    let c = OptionContractItem::from_occ("AAPL 240119C00150000").unwrap();
    assert_eq!(c.expiry, 1705640400000);
    let k = OptionKlineItem::from_occ_tz("AAPL 240119P00150000", "day", "America/New_York").unwrap();
    assert_eq!(k.expiry, 1705640400000);
}

fn config_message(r: Result<i64, TigerError>) -> String {
    match r {
        Err(TigerError::Config(m)) => m,
        other => panic!("unexpected {:?}", other),
    }
}

#[test]
fn expiry_errors_name_the_inputs() {
    assert_eq!(
        config_message(date_to_expiry_ms("2024-01-19", "Mars/Base")),
        "unknown timezone: \"Mars/Base\""
    );
    let m = config_message(date_to_expiry_ms("2024-13-01", "America/New_York"));
    assert!(m.starts_with("invalid date \"2024-13-01\": expected YYYY-MM-DD: "));
    assert!(m.len() > "invalid date \"2024-13-01\": expected YYYY-MM-DD: ".len());
    assert_eq!(
        config_message(expiry_from_instants(LocalInstants::Gap, "2024-03-10", "America/New_York")),
        "ambiguous or invalid local time for date \"2024-03-10\" in tz \"America/New_York\""
    );
    assert_eq!(expiry_from_instants(LocalInstants::Single(7), "d", "z").unwrap(), 7);
    assert_eq!(expiry_from_instants(LocalInstants::Ambiguous(5, 9), "d", "z").unwrap(), 5);
    // an unknown zone is reported before a bad date
    assert_eq!(
        config_message(date_to_expiry_ms("not-a-date", "Mars/Base")),
        "unknown timezone: \"Mars/Base\""
    );
    // a date that does not exist in the calendar
    assert!(config_message(date_to_expiry_ms("2024-02-30", "Asia/Shanghai")).starts_with("invalid date \"2024-02-30\""));
    // Santiago's clocks skip midnight on the day daylight time starts
    assert_eq!(
        config_message(date_to_expiry_ms("2022-09-11", "America/Santiago")),
        "ambiguous or invalid local time for date \"2022-09-11\" in tz \"America/Santiago\""
    );
    assert_eq!(date_to_expiry_ms("2024-01-19", "UTC").unwrap(), 1705622400000);
}
