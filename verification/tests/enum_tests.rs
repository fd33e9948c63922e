use tigeropen::model::enums::{order_status_name, status_from_value, StatusValue, Market, SecurityType, Currency, OrderType, OrderStatus, BarPeriod, Language, QuoteRight, License, OrderSortBy, SegmentType, CorporateActionType, IndustryLevel, SortDirection, OptionAnalysisPeriod, FinancialReportPeriod, TimeInForce};
// ========== Market 枚举测试 ==========

#[test]
fn test_market_serialize() {
    assert_eq!(serde_json::to_string(Market::All.as_str()).unwrap(), "\"ALL\"");
    assert_eq!(serde_json::to_string(Market::Us.as_str()).unwrap(), "\"US\"");
    assert_eq!(serde_json::to_string(Market::Hk.as_str()).unwrap(), "\"HK\"");
    assert_eq!(serde_json::to_string(Market::Cn.as_str()).unwrap(), "\"CN\"");
    assert_eq!(serde_json::to_string(Market::Sg.as_str()).unwrap(), "\"SG\"");
}

#[test]
fn test_market_deserialize() {
    assert_eq!(Market::from_wire(&serde_json::from_str::<String>("\"ALL\"").unwrap()).unwrap(), Market::All);
    assert_eq!(Market::from_wire(&serde_json::from_str::<String>("\"US\"").unwrap()).unwrap(), Market::Us);
    assert_eq!(Market::from_wire(&serde_json::from_str::<String>("\"HK\"").unwrap()).unwrap(), Market::Hk);
    assert_eq!(Market::from_wire(&serde_json::from_str::<String>("\"CN\"").unwrap()).unwrap(), Market::Cn);
    assert_eq!(Market::from_wire(&serde_json::from_str::<String>("\"SG\"").unwrap()).unwrap(), Market::Sg);
}

// ========== SecurityType 枚举测试 ==========

#[test]
fn test_security_type_serialize() {
    assert_eq!(serde_json::to_string(SecurityType::All.as_str()).unwrap(), "\"ALL\"");
    assert_eq!(serde_json::to_string(SecurityType::Stk.as_str()).unwrap(), "\"STK\"");
    assert_eq!(serde_json::to_string(SecurityType::Opt.as_str()).unwrap(), "\"OPT\"");
    assert_eq!(serde_json::to_string(SecurityType::War.as_str()).unwrap(), "\"WAR\"");
    assert_eq!(serde_json::to_string(SecurityType::Iopt.as_str()).unwrap(), "\"IOPT\"");
    assert_eq!(serde_json::to_string(SecurityType::Fut.as_str()).unwrap(), "\"FUT\"");
    assert_eq!(serde_json::to_string(SecurityType::Fop.as_str()).unwrap(), "\"FOP\"");
    assert_eq!(serde_json::to_string(SecurityType::Cash.as_str()).unwrap(), "\"CASH\"");
    assert_eq!(serde_json::to_string(SecurityType::Mleg.as_str()).unwrap(), "\"MLEG\"");
    assert_eq!(serde_json::to_string(SecurityType::Fund.as_str()).unwrap(), "\"FUND\"");
}

#[test]
fn test_security_type_deserialize() {
    assert_eq!(SecurityType::from_wire(&serde_json::from_str::<String>("\"STK\"").unwrap()).unwrap(), SecurityType::Stk);
    assert_eq!(SecurityType::from_wire(&serde_json::from_str::<String>("\"OPT\"").unwrap()).unwrap(), SecurityType::Opt);
    assert_eq!(SecurityType::from_wire(&serde_json::from_str::<String>("\"FUT\"").unwrap()).unwrap(), SecurityType::Fut);
    assert_eq!(SecurityType::from_wire(&serde_json::from_str::<String>("\"FUND\"").unwrap()).unwrap(), SecurityType::Fund);
}

// ========== Currency 枚举测试 ==========

#[test]
fn test_currency_serialize() {
    assert_eq!(serde_json::to_string(Currency::All.as_str()).unwrap(), "\"ALL\"");
    assert_eq!(serde_json::to_string(Currency::Usd.as_str()).unwrap(), "\"USD\"");
    assert_eq!(serde_json::to_string(Currency::Hkd.as_str()).unwrap(), "\"HKD\"");
    assert_eq!(serde_json::to_string(Currency::Cnh.as_str()).unwrap(), "\"CNH\"");
    assert_eq!(serde_json::to_string(Currency::Sgd.as_str()).unwrap(), "\"SGD\"");
}

#[test]
fn test_currency_deserialize() {
    assert_eq!(Currency::from_wire(&serde_json::from_str::<String>("\"USD\"").unwrap()).unwrap(), Currency::Usd);
    assert_eq!(Currency::from_wire(&serde_json::from_str::<String>("\"HKD\"").unwrap()).unwrap(), Currency::Hkd);
}

// ========== OrderType 枚举测试 ==========

#[test]
fn test_order_type_serialize() {
    assert_eq!(serde_json::to_string(OrderType::Mkt.as_str()).unwrap(), "\"MKT\"");
    assert_eq!(serde_json::to_string(OrderType::Lmt.as_str()).unwrap(), "\"LMT\"");
    assert_eq!(serde_json::to_string(OrderType::Stp.as_str()).unwrap(), "\"STP\"");
    assert_eq!(serde_json::to_string(OrderType::StpLmt.as_str()).unwrap(), "\"STP_LMT\"");
    assert_eq!(serde_json::to_string(OrderType::Trail.as_str()).unwrap(), "\"TRAIL\"");
    assert_eq!(serde_json::to_string(OrderType::Am.as_str()).unwrap(), "\"AM\"");
    assert_eq!(serde_json::to_string(OrderType::Al.as_str()).unwrap(), "\"AL\"");
    assert_eq!(serde_json::to_string(OrderType::Twap.as_str()).unwrap(), "\"TWAP\"");
    assert_eq!(serde_json::to_string(OrderType::Vwap.as_str()).unwrap(), "\"VWAP\"");
    assert_eq!(serde_json::to_string(OrderType::Oca.as_str()).unwrap(), "\"OCA\"");
}

#[test]
fn test_order_type_deserialize() {
    assert_eq!(OrderType::from_wire(&serde_json::from_str::<String>("\"MKT\"").unwrap()).unwrap(), OrderType::Mkt);
    assert_eq!(OrderType::from_wire(&serde_json::from_str::<String>("\"STP_LMT\"").unwrap()).unwrap(), OrderType::StpLmt);
    assert_eq!(OrderType::from_wire(&serde_json::from_str::<String>("\"TWAP\"").unwrap()).unwrap(), OrderType::Twap);
}

// ========== OrderStatus 枚举测试 ==========

#[test]
fn test_order_status_serialize() {
    assert_eq!(serde_json::to_string(OrderStatus::Invalid.as_str()).unwrap(), "\"Invalid\"");
    assert_eq!(serde_json::to_string(OrderStatus::Initial.as_str()).unwrap(), "\"Initial\"");
    assert_eq!(serde_json::to_string(OrderStatus::PendingCancel.as_str()).unwrap(), "\"PendingCancel\"");
    assert_eq!(serde_json::to_string(OrderStatus::Cancelled.as_str()).unwrap(), "\"Cancelled\"");
    assert_eq!(serde_json::to_string(OrderStatus::Submitted.as_str()).unwrap(), "\"Submitted\"");
    assert_eq!(serde_json::to_string(OrderStatus::Filled.as_str()).unwrap(), "\"Filled\"");
    assert_eq!(serde_json::to_string(OrderStatus::Inactive.as_str()).unwrap(), "\"Inactive\"");
    assert_eq!(serde_json::to_string(OrderStatus::PendingSubmit.as_str()).unwrap(), "\"PendingSubmit\"");
}

#[test]
fn test_order_status_deserialize() {
    assert_eq!(OrderStatus::from_wire(&serde_json::from_str::<String>("\"Invalid\"").unwrap()).unwrap(), OrderStatus::Invalid);
    assert_eq!(OrderStatus::from_wire(&serde_json::from_str::<String>("\"Initial\"").unwrap()).unwrap(), OrderStatus::Initial);
    assert_eq!(OrderStatus::from_wire(&serde_json::from_str::<String>("\"PendingCancel\"").unwrap()).unwrap(), OrderStatus::PendingCancel);
    assert_eq!(OrderStatus::from_wire(&serde_json::from_str::<String>("\"Cancelled\"").unwrap()).unwrap(), OrderStatus::Cancelled);
    assert_eq!(OrderStatus::from_wire(&serde_json::from_str::<String>("\"Submitted\"").unwrap()).unwrap(), OrderStatus::Submitted);
    assert_eq!(OrderStatus::from_wire(&serde_json::from_str::<String>("\"Filled\"").unwrap()).unwrap(), OrderStatus::Filled);
    assert_eq!(OrderStatus::from_wire(&serde_json::from_str::<String>("\"Inactive\"").unwrap()).unwrap(), OrderStatus::Inactive);
    assert_eq!(OrderStatus::from_wire(&serde_json::from_str::<String>("\"PendingSubmit\"").unwrap()).unwrap(), OrderStatus::PendingSubmit);
}

#[test]
fn test_order_status_code() {
    assert_eq!(OrderStatus::Invalid.code(), -2);
    assert_eq!(OrderStatus::Initial.code(), -1);
    assert_eq!(OrderStatus::PendingCancel.code(), 3);
    assert_eq!(OrderStatus::Cancelled.code(), 4);
    assert_eq!(OrderStatus::Submitted.code(), 5);
    assert_eq!(OrderStatus::Filled.code(), 6);
    assert_eq!(OrderStatus::Inactive.code(), 7);
    assert_eq!(OrderStatus::PendingSubmit.code(), 8);
}

// ========== BarPeriod 枚举测试 ==========

#[test]
fn test_bar_period_serialize() {
    assert_eq!(serde_json::to_string(BarPeriod::Day.as_str()).unwrap(), "\"day\"");
    assert_eq!(serde_json::to_string(BarPeriod::Week.as_str()).unwrap(), "\"week\"");
    assert_eq!(serde_json::to_string(BarPeriod::Month.as_str()).unwrap(), "\"month\"");
    assert_eq!(serde_json::to_string(BarPeriod::Year.as_str()).unwrap(), "\"year\"");
    assert_eq!(serde_json::to_string(BarPeriod::Min1.as_str()).unwrap(), "\"1min\"");
    assert_eq!(serde_json::to_string(BarPeriod::Min5.as_str()).unwrap(), "\"5min\"");
    assert_eq!(serde_json::to_string(BarPeriod::Min15.as_str()).unwrap(), "\"15min\"");
    assert_eq!(serde_json::to_string(BarPeriod::Min30.as_str()).unwrap(), "\"30min\"");
    assert_eq!(serde_json::to_string(BarPeriod::Min60.as_str()).unwrap(), "\"60min\"");
}

#[test]
fn test_bar_period_deserialize() {
    assert_eq!(BarPeriod::from_wire(&serde_json::from_str::<String>("\"day\"").unwrap()).unwrap(), BarPeriod::Day);
    assert_eq!(BarPeriod::from_wire(&serde_json::from_str::<String>("\"1min\"").unwrap()).unwrap(), BarPeriod::Min1);
    assert_eq!(BarPeriod::from_wire(&serde_json::from_str::<String>("\"60min\"").unwrap()).unwrap(), BarPeriod::Min60);
}

// ========== Language 枚举测试 ==========

#[test]
fn test_language_serialize() {
    assert_eq!(serde_json::to_string(Language::ZhCn.as_str()).unwrap(), "\"zh_CN\"");
    assert_eq!(serde_json::to_string(Language::ZhTw.as_str()).unwrap(), "\"zh_TW\"");
    assert_eq!(serde_json::to_string(Language::EnUs.as_str()).unwrap(), "\"en_US\"");
}

#[test]
fn test_language_deserialize() {
    assert_eq!(Language::from_wire(&serde_json::from_str::<String>("\"zh_CN\"").unwrap()).unwrap(), Language::ZhCn);
    assert_eq!(Language::from_wire(&serde_json::from_str::<String>("\"en_US\"").unwrap()).unwrap(), Language::EnUs);
}

// ========== QuoteRight 枚举测试 ==========

#[test]
fn test_quote_right_serialize() {
    assert_eq!(serde_json::to_string(QuoteRight::Br.as_str()).unwrap(), "\"br\"");
    assert_eq!(serde_json::to_string(QuoteRight::Nr.as_str()).unwrap(), "\"nr\"");
}

#[test]
fn test_quote_right_deserialize() {
    assert_eq!(QuoteRight::from_wire(&serde_json::from_str::<String>("\"br\"").unwrap()).unwrap(), QuoteRight::Br);
    assert_eq!(QuoteRight::from_wire(&serde_json::from_str::<String>("\"nr\"").unwrap()).unwrap(), QuoteRight::Nr);
}

// ========== License 枚举测试 ==========

#[test]
fn test_license_serialize() {
    assert_eq!(serde_json::to_string(License::Tbnz.as_str()).unwrap(), "\"TBNZ\"");
    assert_eq!(serde_json::to_string(License::Tbsg.as_str()).unwrap(), "\"TBSG\"");
    assert_eq!(serde_json::to_string(License::Tbhk.as_str()).unwrap(), "\"TBHK\"");
    assert_eq!(serde_json::to_string(License::Tbau.as_str()).unwrap(), "\"TBAU\"");
    assert_eq!(serde_json::to_string(License::Tbus.as_str()).unwrap(), "\"TBUS\"");
    assert_eq!(serde_json::to_string(License::Tbms.as_str()).unwrap(), "\"TBMS\"");
}

#[test]
fn test_license_deserialize() {
    assert_eq!(License::from_wire(&serde_json::from_str::<String>("\"TBNZ\"").unwrap()).unwrap(), License::Tbnz);
    assert_eq!(License::from_wire(&serde_json::from_str::<String>("\"TBHK\"").unwrap()).unwrap(), License::Tbhk);
    assert_eq!(License::from_wire(&serde_json::from_str::<String>("\"TBMS\"").unwrap()).unwrap(), License::Tbms);
}

// ========== 新增枚举测试 ==========

#[test]
fn test_new_enums_serialize() {
    assert_eq!(serde_json::to_string(OrderSortBy::LatestCreated.as_str()).unwrap(), "\"LATEST_CREATED\"");
    assert_eq!(serde_json::to_string(OrderSortBy::LatestStatusUpdated.as_str()).unwrap(), "\"LATEST_STATUS_UPDATED\"");
    assert_eq!(serde_json::to_string(SegmentType::Sec.as_str()).unwrap(), "\"SEC\"");
    assert_eq!(serde_json::to_string(SegmentType::Fund.as_str()).unwrap(), "\"FUND\"");
    assert_eq!(serde_json::to_string(CorporateActionType::Split.as_str()).unwrap(), "\"split\"");
    assert_eq!(serde_json::to_string(CorporateActionType::Dividend.as_str()).unwrap(), "\"dividend\"");
    assert_eq!(serde_json::to_string(IndustryLevel::GSector.as_str()).unwrap(), "\"GSECTOR\"");
    assert_eq!(serde_json::to_string(IndustryLevel::GSubInd.as_str()).unwrap(), "\"GSUBIND\"");
    assert_eq!(serde_json::to_string(SortDirection::No.as_str()).unwrap(), "\"SortDir_No\"");
    assert_eq!(serde_json::to_string(SortDirection::Ascend.as_str()).unwrap(), "\"SortDir_Ascend\"");
    assert_eq!(serde_json::to_string(SortDirection::Descend.as_str()).unwrap(), "\"SortDir_Descend\"");
    assert_eq!(serde_json::to_string(OptionAnalysisPeriod::ThreeYear.as_str()).unwrap(), "\"3year\"");
    assert_eq!(serde_json::to_string(OptionAnalysisPeriod::FiftyTwoWeek.as_str()).unwrap(), "\"52week\"");
    assert_eq!(serde_json::to_string(FinancialReportPeriod::Annual.as_str()).unwrap(), "\"Annual\"");
    assert_eq!(serde_json::to_string(FinancialReportPeriod::Ltm.as_str()).unwrap(), "\"LTM\"");
}

#[test]
fn test_new_enums_deserialize() {
    assert_eq!(OrderSortBy::from_wire(&serde_json::from_str::<String>("\"LATEST_CREATED\"").unwrap()).unwrap(), OrderSortBy::LatestCreated);
    assert_eq!(SegmentType::from_wire(&serde_json::from_str::<String>("\"SEC\"").unwrap()).unwrap(), SegmentType::Sec);
    assert_eq!(CorporateActionType::from_wire(&serde_json::from_str::<String>("\"split\"").unwrap()).unwrap(), CorporateActionType::Split);
    assert_eq!(IndustryLevel::from_wire(&serde_json::from_str::<String>("\"GSECTOR\"").unwrap()).unwrap(), IndustryLevel::GSector);
    assert_eq!(SortDirection::from_wire(&serde_json::from_str::<String>("\"SortDir_Descend\"").unwrap()).unwrap(), SortDirection::Descend);
    assert_eq!(OptionAnalysisPeriod::from_wire(&serde_json::from_str::<String>("\"52week\"").unwrap()).unwrap(), OptionAnalysisPeriod::FiftyTwoWeek);
    assert_eq!(FinancialReportPeriod::from_wire(&serde_json::from_str::<String>("\"LTM\"").unwrap()).unwrap(), FinancialReportPeriod::Ltm);
}

// ========== TimeInForce 枚举测试 ==========

#[test]
fn test_time_in_force_serialize() {
    assert_eq!(serde_json::to_string(TimeInForce::Day.as_str()).unwrap(), "\"DAY\"");
    assert_eq!(serde_json::to_string(TimeInForce::Gtc.as_str()).unwrap(), "\"GTC\"");
    assert_eq!(serde_json::to_string(TimeInForce::Opg.as_str()).unwrap(), "\"OPG\"");
}

#[test]
fn test_time_in_force_deserialize() {
    assert_eq!(TimeInForce::from_wire(&serde_json::from_str::<String>("\"DAY\"").unwrap()).unwrap(), TimeInForce::Day);
    assert_eq!(TimeInForce::from_wire(&serde_json::from_str::<String>("\"GTC\"").unwrap()).unwrap(), TimeInForce::Gtc);
    assert_eq!(TimeInForce::from_wire(&serde_json::from_str::<String>("\"OPG\"").unwrap()).unwrap(), TimeInForce::Opg);
}

#[test]
fn unknown_wire_names_read_as_none() {
    assert_eq!(Market::from_wire("us"), None);
    assert_eq!(OrderType::from_wire(""), None);
    assert_eq!(Language::from_wire("fr_FR"), None);
}

#[test]
fn test_order_status_integer_deserialization() {
    assert_eq!(status_from_value(StatusValue::Number(Some(6))), "Filled");
    assert_eq!(status_from_value(StatusValue::Number(Some(5))), "Submitted");
    assert_eq!(status_from_value(StatusValue::Number(Some(8))), "PendingSubmit");
    assert_eq!(status_from_value(StatusValue::Number(Some(-2))), "Invalid");
    assert_eq!(status_from_value(StatusValue::Text("Filled".to_string())), "Filled");
    assert_eq!(status_from_value(StatusValue::Number(Some(42))), "Unknown");
    assert_eq!(status_from_value(StatusValue::Number(None)), "Unknown");
    assert_eq!(status_from_value(StatusValue::Other), "");
    assert_eq!(order_status_name(6), "Filled");
    assert_eq!(order_status_name(5), "Submitted");
    assert_eq!(order_status_name(-2), "Invalid");
    assert_eq!(order_status_name(99), "Unknown");
    for s in [
        OrderStatus::Invalid,
        OrderStatus::Initial,
        OrderStatus::PendingCancel,
        OrderStatus::Cancelled,
        OrderStatus::Submitted,
        OrderStatus::Filled,
        OrderStatus::Inactive,
        OrderStatus::PendingSubmit,
    ] {
        assert_eq!(order_status_name(s.code() as i64), s.as_str());
        assert_eq!(OrderStatus::from_wire(s.as_str()), Some(s));
    }
}
