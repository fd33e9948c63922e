//! Quote response records and request bodies without floating-point fields.

use vstd::prelude::*;

verus! {

/// 市场状态
#[derive(Debug, Clone, Default)]
pub struct MarketState {
    pub market: String,
    pub market_status: String,
    pub status: String,
    pub open_time: String,
}

/// 期权到期日
#[derive(Debug, Clone, Default)]
pub struct OptionExpiration {
    pub symbol: String,
    pub option_symbols: Vec<String>,
    pub dates: Vec<String>,
    pub timestamps: Vec<i64>,
    pub periods: Vec<String>,
    pub counts: Vec<i32>,
}

/// 期货交易所
#[derive(Debug, Clone, Default)]
pub struct FutureExchange {
    pub code: String,
    pub name: String,
    pub zone_id: String,
}

/// 财报数据
#[derive(Debug, Clone, Default)]
pub struct FinancialReportItem {
    pub symbol: String,
    pub currency: String,
    pub field: String,
    pub value: String,
    pub filing_date: String,
    pub period_end_date: String,
}

/// 行情权限
#[derive(Debug, Clone, Default)]
pub struct QuotePermission {
    pub name: String,
    pub expire_at: i64,
}

/// 日级财务数据请求
#[derive(Debug, Clone, Default)]
pub struct FinancialDailyRequest {
    pub symbols: Vec<String>,
    pub market: String,
    pub fields: Vec<String>,
    pub begin_date: String,
    pub end_date: String,
}

/// 财报数据请求
#[derive(Debug, Clone, Default)]
pub struct FinancialReportRequest {
    pub symbols: Vec<String>,
    pub market: String,
    pub fields: Vec<String>,
    pub period_type: String,
    pub begin_date: String,
    pub end_date: String,
}

/// 公司行动请求
#[derive(Debug, Clone, Default)]
pub struct CorporateActionRequest {
    pub symbols: Vec<String>,
    pub market: String,
    pub action_type: String,
    pub begin_date: String,
    pub end_date: String,
}

/// 合约代码 + 名称（all_symbol_names 返回）。
#[derive(Debug, Clone, Default)]
pub struct SymbolName {
    pub symbol: String,
    pub name: String,
    pub market: String,
}

/// 经纪商明细。
#[derive(Debug, Clone, Default)]
pub struct BrokerDetail {
    pub id: String,
    pub name: String,
}

/// 股票行业归属（stock_industry）。
#[derive(Debug, Clone, Default)]
pub struct StockIndustry {
    pub symbol: String,
    pub gsector: String,
    pub ggroup: String,
    pub gind: String,
    pub gsubind: String,
    pub level: String,
}

/// K 线配额明细。
#[derive(Debug, Clone, Default)]
pub struct KlineQuotaDetail {
    pub symbol: String,
    pub market: String,
    pub used_bars: i32,
    pub quota_bars: i32,
    pub last_access: i64,
}

/// K 线配额（kline_quota）。
#[derive(Debug, Clone, Default)]
pub struct KlineQuota {
    pub method: String,
    pub used: i32,
    pub quota: i32,
    pub detail: Vec<KlineQuotaDetail>,
}

/// 期权代码（all_hk_option_symbols 返回）。
#[derive(Debug, Clone, Default)]
pub struct OptionSymbol {
    pub symbol: String,
    pub market: String,
    pub name: String,
    pub name_cn: String,
    pub name_en: String,
    pub underlying_symbol: String,
}

/// 期货主力合约历史（future_main_contract）。
#[derive(Debug, Clone, Default)]
pub struct FutureMainContractHistory {
    pub contract_code: String,
    pub symbol: String,
    pub begin_date: String,
    pub end_date: String,
}

/// 单个期货交易时段。
#[derive(Debug, Clone, Default)]
pub struct FutureTradingSegment {
    pub start: i64,
    pub end: i64,
    pub kind: String,
}

/// 期货交易时段（future_trading_date）。
#[derive(Debug, Clone, Default)]
pub struct FutureTradingTime {
    pub contract_code: String,
    pub biz_date: String,
    pub zone: String,
    pub trading_times: Vec<FutureTradingSegment>,
}

/// 行业列表条目（industry_list）。
#[derive(Debug, Clone, Default)]
pub struct IndustryItem {
    pub id: String,
    pub name: String,
    pub level: String,
}

/// 财报货币（financial_currency）。
#[derive(Debug, Clone, Default)]
pub struct FinancialCurrency {
    pub symbol: String,
    pub market: String,
    pub currency: String,
}

/// 交易日历（trading_calendar）。
#[derive(Debug, Clone, Default)]
pub struct TradingCalendarItem {
    pub market: String,
    pub date: String,
    pub is_trading: bool,
    pub session_type: String,
}

/// 扫描器标签条目（market_scanner_tags `tagList` 数组元素）。
#[derive(Debug, Clone, Default)]
pub struct MarketScannerTag {
    pub field: String,
    pub name: String,
    pub values: Vec<String>,
}

/// 扫描器标签分组（market_scanner_tags 顶层数组元素）。
/// 服务端 wire: `[{market, multiTagField, tagList:[...]}]`
#[derive(Debug, Clone, Default)]
pub struct MarketScannerTagGroup {
    pub market: String,
    pub multi_tag_field: String,
    pub tag_list: Vec<MarketScannerTag>,
}

} // verus!
