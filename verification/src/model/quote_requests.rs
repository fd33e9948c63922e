//! Quote request bodies, and the option helpers: OCC identifier parsing,
//! expiry time-zone inference and date-to-expiry conversion.

use vstd::prelude::*;
use crate::error::TigerError;
use crate::numtext::{decimal, i32_value, padded, parse_i32, parse_unsigned, push_decimal, push_padded, unsigned_value};
use crate::text::{chars_of, join_message, owned, string_of, trim, trim_bounds, trim_start, skip_ws_forward};

verus! {

/// 股票实时报价请求。wire: quote_real_time
#[derive(Debug, Clone, Default)]
pub struct BriefRequest {
    pub symbols: Option<Vec<String>>,
    pub include_hour_trading: Option<bool>,
    pub sec_type: Option<String>,
    pub lang: Option<String>,
}

/// 全量合约代码查询请求。wire: all_symbols / all_symbol_names
#[derive(Debug, Clone, Default)]
pub struct SymbolsRequest {
    pub market: Option<String>,
    pub sec_type: Option<String>,
    pub include_otc: Option<bool>,
    pub lang: Option<String>,
}

/// 交易元数据请求。wire: quote_stock_trade
#[derive(Debug, Clone, Default)]
pub struct TradeMetasRequest {
    pub symbols: Option<Vec<String>>,
    pub lang: Option<String>,
}

/// 股票详情请求。wire: stock_detail
#[derive(Debug, Clone, Default)]
pub struct StockDetailsRequest {
    pub symbols: Option<Vec<String>>,
    pub sec_type: Option<String>,
    pub lang: Option<String>,
}

/// 延时行情请求。wire: quote_delay
#[derive(Debug, Clone, Default)]
pub struct StockDelayBriefsRequest {
    pub symbols: Option<Vec<String>>,
    pub sec_type: Option<String>,
    pub lang: Option<String>,
}

/// 盘口深度请求。wire: quote_depth
#[derive(Debug, Clone, Default)]
pub struct DepthQuoteRequest {
    pub symbols: Option<Vec<String>>,
    pub market: Option<String>,
    pub trade_session: Option<String>,
    pub lang: Option<String>,
}

/// K 线查询请求。wire: kline
#[derive(Debug, Clone, Default)]
pub struct KlineRequest {
    pub symbols: Option<Vec<String>>,
    pub period: Option<String>,
    pub right: Option<String>,
    pub begin_time: Option<i64>,
    pub end_time: Option<i64>,
    pub limit: Option<i32>,
    pub begin_index: Option<i32>,
    pub end_index: Option<i32>,
    pub page_token: Option<String>,
    pub trade_session: Option<String>,
    pub date: Option<String>,
    pub with_fundamental: Option<bool>,
    pub sec_type: Option<String>,
    pub lang: Option<String>,
}

/// K 线分页包装请求（客户端分页）。
#[derive(Debug, Clone, Default)]
pub struct KlineByPageRequest {
    pub symbols: Option<Vec<String>>,
    pub period: Option<String>,
    pub begin_time: Option<i64>,
    pub end_time: Option<i64>,
    pub total_size: Option<i32>,
    pub page_size: Option<i32>,
    pub right: Option<String>,
    pub trade_session: Option<String>,
    pub lang: Option<String>,
}

/// 历史分时请求。wire: history_timeline
#[derive(Debug, Clone, Default)]
pub struct TimelineHistoryRequest {
    pub symbols: Option<Vec<String>>,
    pub date: Option<String>,
    pub right: Option<String>,
    pub trade_session: Option<String>,
    pub lang: Option<String>,
}

/// 逐笔成交请求。wire: trade_tick
#[derive(Debug, Clone, Default)]
pub struct TradeTickRequest {
    pub symbols: Option<Vec<String>>,
    pub begin_index: Option<i32>,
    pub end_index: Option<i32>,
    pub limit: Option<i32>,
    pub trade_session: Option<String>,
    pub lang: Option<String>,
}

/// 成交榜单请求。wire: trade_rank
#[derive(Debug, Clone, Default)]
pub struct TradeRankRequest {
    pub market: Option<String>,
    pub lang: Option<String>,
}

/// 做空数据请求。wire: quote_shortable_stocks
#[derive(Debug, Clone, Default)]
pub struct ShortInterestRequest {
    pub symbols: Option<Vec<String>>,
    pub lang: Option<String>,
}

/// 经纪商持仓请求。wire: stock_broker
#[derive(Debug, Clone, Default)]
pub struct StockBrokerRequest {
    pub symbol: Option<String>,
    pub limit: Option<i32>,
    pub sec_type: Option<String>,
    pub lang: Option<String>,
}

/// 股票基本面请求。wire: stock_fundamental
#[derive(Debug, Clone, Default)]
pub struct StockFundamentalRequest {
    pub symbols: Option<Vec<String>>,
    pub market: Option<String>,
    pub sec_type: Option<String>,
    pub lang: Option<String>,
}

/// 股票行业归属请求。wire: stock_industry
#[derive(Debug, Clone, Default)]
pub struct StockIndustryRequest {
    pub symbol: Option<String>,
    pub market: Option<String>,
    pub sec_type: Option<String>,
    pub lang: Option<String>,
}

/// 行情权限查询请求。wire: get_quote_permission
#[derive(Debug, Clone, Default)]
pub struct QuotePermissionRequest {
    pub begin_date: Option<String>,
    pub end_date: Option<String>,
    pub lang: Option<String>,
}

/// K 线配额查询请求。wire: kline_quota
#[derive(Debug, Clone, Default)]
pub struct KlineQuotaRequest {
    pub with_details: Option<bool>,
    pub lang: Option<String>,
}

/// 期权查询嵌套条目（option_query / option_basic 用）。
#[derive(Debug, Clone, Default)]
pub struct OptionQueryItem {
    pub symbol: Option<String>,
    pub expiry: Option<i64>,
    pub strike: Option<String>,
    pub right: Option<String>,
    pub period: Option<String>,
    pub begin_time: Option<i64>,
    pub end_time: Option<i64>,
    pub limit: Option<i32>,
    pub begin_index: Option<i32>,
    pub end_index: Option<i32>,
    pub page_token: Option<String>,
}

/// 期权链查询条目：symbol + expiry（毫秒时间戳）。
///
/// 构造方式：
/// - `OptionChainItem::new("AAPL", 1705622400000)` — 直接传时间戳
/// - `OptionChainItem::from_date("AAPL", "2024-01-19")?` — 日期字符串，按 symbol 推断时区
/// - `OptionChainItem::from_date_tz("AAPL", "2024-01-19", "America/New_York")?` — 指定时区
#[derive(Debug, Clone)]
pub struct OptionChainItem {
    pub symbol: String,
    pub expiry: i64,
}

/// 期权链请求。wire: option_chain (v3.0)
#[derive(Debug, Clone, Default)]
pub struct OptionChainRequest {
    pub option_basic: Option<Vec<OptionChainItem>>,
    pub market: Option<String>,
    pub lang: Option<String>,
}

/// 期权实时行情查询条目：OCC 已解析字段 + expiry 时间戳。
///
/// 构造方式：
/// - `OptionContractItem::from_occ("AAPL 240119C00150000")?` — OCC 格式，按 symbol 推断时区
/// - `OptionContractItem::from_occ_tz("AAPL 240119C00150000", "America/New_York")?` — 指定时区
/// - `OptionContractItem::new("AAPL", 1705622400000, "Call", "150")` — 直接构造
#[derive(Debug, Clone)]
pub struct OptionContractItem {
    pub symbol: String,
    pub expiry: i64,
    pub right: String,
    pub strike: String,
}

/// 期权实时行情请求。wire: option_brief (v2.0)
#[derive(Debug, Clone, Default)]
pub struct OptionQuoteRequest {
    pub option_basic: Option<Vec<OptionContractItem>>,
    pub market: Option<String>,
    pub lang: Option<String>,
}

/// 期权 K 线查询条目。
#[derive(Debug, Clone)]
pub struct OptionKlineItem {
    pub symbol: String,
    pub expiry: i64,
    pub right: String,
    pub strike: String,
    pub period: String,
    pub begin_time: Option<i64>,
    pub end_time: Option<i64>,
    pub limit: Option<i32>,
}

/// 期权 K 线请求。wire: option_kline
#[derive(Debug, Clone, Default)]
pub struct OptionKlineRequest {
    pub option_query: Option<Vec<OptionKlineItem>>,
    pub market: Option<String>,
    pub lang: Option<String>,
}

/// 期权逐笔请求。wire: option_trade_tick
#[derive(Debug, Clone, Default)]
pub struct OptionTradeTicksRequest {
    pub contracts: Option<Vec<OptionQueryItem>>,
    pub lang: Option<String>,
}

/// 期权分时请求。wire: option_timeline
#[derive(Debug, Clone, Default)]
pub struct OptionTimelineRequest {
    pub option_query: Option<Vec<OptionQueryItem>>,
    pub market: Option<String>,
    pub lang: Option<String>,
}

/// 期权盘口请求。wire: option_depth
#[derive(Debug, Clone, Default)]
pub struct OptionDepthRequest {
    pub option_basic: Option<Vec<OptionQueryItem>>,
    pub market: Option<String>,
    pub lang: Option<String>,
}

/// 港股期权代码列表请求。wire: all_hk_option_symbols
#[derive(Debug, Clone, Default)]
pub struct OptionSymbolsRequest {
    pub market: Option<String>,
    pub lang: Option<String>,
}

/// 期权分析请求。wire: option_analysis
#[derive(Debug, Clone, Default)]
pub struct OptionAnalysisRequest {
    pub symbols: Option<Vec<String>>,
    pub market: Option<String>,
    pub period: Option<String>,
    pub require_volatility_list: Option<bool>,
    pub lang: Option<String>,
}

/// 期货实时行情请求。wire: future_real_time_quote
#[derive(Debug, Clone, Default)]
pub struct FutureBriefRequest {
    pub contract_codes: Option<Vec<String>>,
    pub lang: Option<String>,
}

/// 按 contract_code 查询期货合约请求。wire: future_contract_by_contract_code / future_current_contract
#[derive(Debug, Clone, Default)]
pub struct FutureContractSingleRequest {
    pub contract_code: Option<String>,
    pub contract_type: Option<String>,
    pub lang: Option<String>,
}

/// 查询所有期货合约请求。wire: future_contracts
#[derive(Debug, Clone, Default)]
pub struct AllFutureContractsRequest {
    pub contract_type: Option<String>,
    pub exchange: Option<String>,
    pub lang: Option<String>,
}

/// 连续主力合约请求。wire: future_continuous_contracts
#[derive(Debug, Clone, Default)]
pub struct FutureContinuousContractsRequest {
    pub contract_type: Option<String>,
    pub lang: Option<String>,
}

/// 主力合约历史请求。wire: future_main_contract
#[derive(Debug, Clone, Default)]
pub struct FutureHistoryMainContractRequest {
    pub contract_codes: Option<Vec<String>>,
    pub begin_time: Option<i64>,
    pub end_time: Option<i64>,
    pub lang: Option<String>,
}

/// 期货 K 线请求（含索引分页）。wire: future_kline
#[derive(Debug, Clone, Default)]
pub struct FutureKlineRequest {
    pub contract_codes: Option<Vec<String>>,
    pub contract_code: Option<String>,
    pub period: Option<String>,
    pub begin_time: Option<i64>,
    pub end_time: Option<i64>,
    pub begin_index: Option<i32>,
    pub end_index: Option<i32>,
    pub limit: Option<i32>,
    pub page_token: Option<String>,
    pub lang: Option<String>,
}

/// 期货 K 线分页包装请求（客户端分页）。
#[derive(Debug, Clone, Default)]
pub struct FutureKlineByPageRequest {
    pub contract_code: Option<String>,
    pub period: Option<String>,
    pub begin_time: Option<i64>,
    pub end_time: Option<i64>,
    pub total_size: Option<i32>,
    pub page_size: Option<i32>,
    pub lang: Option<String>,
}

/// 期货逐笔请求。wire: future_tick (API version 3.0)
#[derive(Debug, Clone, Default)]
pub struct FutureTradeTicksRequest {
    pub contract_code: Option<String>,
    pub begin_index: Option<i32>,
    pub end_index: Option<i32>,
    pub limit: Option<i32>,
    pub lang: Option<String>,
}

/// 期货盘口请求。wire: future_depth
#[derive(Debug, Clone, Default)]
pub struct FutureDepthRequest {
    pub contract_codes: Option<Vec<String>>,
    pub lang: Option<String>,
}

/// 期货交易时段请求。wire: future_trading_date
#[derive(Debug, Clone, Default)]
pub struct FutureTradingTimesRequest {
    pub contract_code: Option<String>,
    pub trading_date: Option<String>,
    pub lang: Option<String>,
}

/// 基金代码列表请求。wire: fund_all_symbols
#[derive(Debug, Clone, Default)]
pub struct FundSymbolsRequest {
    pub lang: Option<String>,
}

/// 基金合约请求。wire: fund_contracts
#[derive(Debug, Clone, Default)]
pub struct FundContractsRequest {
    pub symbols: Option<Vec<String>>,
    pub lang: Option<String>,
}

/// 基金实时净值请求。wire: fund_quote
#[derive(Debug, Clone, Default)]
pub struct FundQuoteRequest {
    pub symbols: Option<Vec<String>>,
    pub lang: Option<String>,
}

/// 基金历史净值请求。wire: fund_history_quote
#[derive(Debug, Clone, Default)]
pub struct FundHistoryQuoteRequest {
    pub symbols: Option<Vec<String>>,
    pub begin_time: Option<i64>,
    pub end_time: Option<i64>,
    pub limit: Option<i32>,
    pub lang: Option<String>,
}

/// 窝轮简要报价请求。wire: warrant_briefs
#[derive(Debug, Clone, Default)]
pub struct WarrantBriefsRequest {
    pub symbols: Option<Vec<String>>,
    pub lang: Option<String>,
}

/// 窝轮筛选请求。wire: warrant_filter
#[derive(Debug, Clone, Default)]
pub struct WarrantFilterRequest {
    pub symbol: Option<String>,
    pub page: Option<i32>,
    pub page_size: Option<i32>,
    pub sort_field_name: Option<String>,
    pub sort_dir: Option<String>,
    pub issuer_name: Option<String>,
    pub expire_ym: Option<String>,
    pub lang: Option<String>,
}

/// 行业列表请求。wire: industry_list
#[derive(Debug, Clone, Default)]
pub struct IndustryListRequest {
    pub industry_level: Option<String>,
    pub lang: Option<String>,
}

/// 行业下股票列表请求。wire: industry_stock_list
#[derive(Debug, Clone, Default)]
pub struct IndustryStocksRequest {
    pub industry_id: Option<String>,
    pub market: Option<String>,
    pub lang: Option<String>,
}

/// 财报币种请求。wire: financial_currency
#[derive(Debug, Clone, Default)]
pub struct FinancialCurrencyRequest {
    pub symbols: Option<Vec<String>>,
    pub market: Option<String>,
    pub lang: Option<String>,
}

/// 汇率请求。wire: financial_exchange_rate
#[derive(Debug, Clone, Default)]
pub struct FinancialExchangeRateRequest {
    pub currency_list: Option<Vec<String>>,
    pub begin_date: Option<String>,
    pub end_date: Option<String>,
    pub timezone: Option<String>,
    pub lang: Option<String>,
}

/// 交易日历请求。wire: trading_calendar
#[derive(Debug, Clone, Default)]
pub struct TradingCalendarRequest {
    pub market: Option<String>,
    pub begin_date: Option<String>,
    pub end_date: Option<String>,
    pub lang: Option<String>,
}

/// 扫描器标签请求。wire: market_scanner_tags
/// 注意 wire 字段名是 `multi_tags_fields`（不是 `multi_tag_field_list`）。
#[derive(Debug, Clone, Default)]
pub struct MarketScannerTagsRequest {
    pub market: Option<String>,
    pub multi_tags_fields: Option<Vec<String>>,
    pub lang: Option<String>,
}

/// 隔夜行情请求。wire: quote_overnight
#[derive(Debug, Clone, Default)]
pub struct QuoteOvernightRequest {
    pub symbols: Option<Vec<String>>,
    pub lang: Option<String>,
}

// ---- time zone of an option's expiry ------------------------------------

pub open spec fn is_ascii_digit(c: char) -> bool {
    '0' <= c && c <= '9'
}

pub open spec fn is_ascii_alpha(c: char) -> bool {
    ('a' <= c && c <= 'z') || ('A' <= c && c <= 'Z')
}

/// The time zone an option's expiry date is read in, from its underlying
/// symbol: numeric or `.HK` symbols are Hong Kong, purely alphabetic ones
/// New York, everything else Shanghai.
pub open spec fn option_timezone(symbol: Seq<char>) -> Seq<char> {
    if (forall|i: int| 0 <= i < symbol.len() ==> is_ascii_digit(symbol[i])) || (symbol.len() >= 3
        && symbol.subrange(symbol.len() - 3, symbol.len() as int) == seq!['.', 'H', 'K']) {
        "Asia/Hong_Kong"@
    } else if forall|i: int| 0 <= i < symbol.len() ==> is_ascii_alpha(symbol[i]) {
        "America/New_York"@
    } else {
        "Asia/Shanghai"@
    }
}

/// Infers the time zone of an option's expiry date from its symbol.
pub fn infer_option_timezone(symbol: &str) -> (tz: &'static str)
    ensures
        tz@ == option_timezone(symbol@),
{
    let s = chars_of(symbol);
    let n = s.len();
    let mut all_digits = true;
    let mut all_alpha = true;
    let mut i: usize = 0;
    while i < n
        invariant
            i <= n == s@.len(),
            s@ == symbol@,
            all_digits == forall|j: int| 0 <= j < i ==> is_ascii_digit(s@[j]),
            all_alpha == forall|j: int| 0 <= j < i ==> is_ascii_alpha(s@[j]),
        decreases n - i,
    {
        let c = s[i];
        if !('0' <= c && c <= '9') {
            all_digits = false;
        }
        if !(('a' <= c && c <= 'z') || ('A' <= c && c <= 'Z')) {
            all_alpha = false;
        }
        i = i + 1;
    }
    let hk_suffix = n >= 3 && s[n - 3] == '.' && s[n - 2] == 'H' && s[n - 1] == 'K';
    proof {
        if n >= 3 {
            let tail = s@.subrange(n - 3, n as int);
            if hk_suffix {
                assert(tail =~= seq!['.', 'H', 'K']);
            } else {
                assert(tail != seq!['.', 'H', 'K']) by {
                    if tail == seq!['.', 'H', 'K'] {
                        assert(tail[0] == s@[n - 3]);
                        assert(tail[1] == s@[n - 2]);
                        assert(tail[2] == s@[n - 1]);
                    }
                }
            }
        }
    }
    if all_digits || hk_suffix {
        "Asia/Hong_Kong"
    } else if all_alpha {
        "America/New_York"
    } else {
        "Asia/Shanghai"
    }
}

// ---- calendar date to expiry timestamp ----------------------------------

/// The instants at which a zone's clocks show a given wall time.
#[derive(Debug, Clone, Copy, PartialEq, Eq, Structural)]
pub enum LocalInstants {
    /// No instant: the wall time falls in a gap of the zone's clocks (or
    /// the calendar date or time does not exist).
    Gap,
    /// Exactly one instant, in epoch milliseconds.
    Single(i64),
    /// Two instants (the clocks were turned back), the earlier first.
    Ambiguous(i64, i64),
}

/// Name for whether chrono-tz knows a zone of that name.
pub uninterp spec fn zone_known(tz: Seq<char>) -> bool;

/// Name for what chrono reads from a `%Y-%m-%d` date: year, month and day,
/// or the text of its error.
pub uninterp spec fn ymd_parse(date: Seq<char>) -> Result<(i32, u32, u32), Seq<char>>;

/// Name for the instants at which the clocks of zone `tz` show the wall
/// time `y-m-d hh:mm:ss`.
pub uninterp spec fn wall_time_instants(
    tz: Seq<char>,
    y: i32,
    m: u32,
    d: u32,
    hh: u32,
    mm: u32,
    ss: u32,
) -> LocalInstants;

/// Whether chrono-tz knows the zone named `tz` (`<Tz as FromStr>::from_str`
/// succeeds). The result is named: `zone_known` of the name.
#[verifier::external_body]
fn tz_known(tz: &str) -> (b: bool)
    ensures
        b == zone_known(tz@),
{
    tz.parse::<chrono_tz::Tz>().is_ok()
}

/// Reads a `%Y-%m-%d` date with chrono (`NaiveDate::parse_from_str`): its
/// year, month and day, or the text of chrono's error. The result is named:
/// `ymd_parse` of the text.
#[verifier::external_body]
fn parse_ymd(date: &str) -> (r: Result<(i32, u32, u32), String>)
    ensures
        match ymd_parse(date@) {
            Ok(t) => r == Ok::<(i32, u32, u32), String>(t),
            Err(e) => r matches Err(s) && s@ == e,
        },
{
    match chrono::NaiveDate::parse_from_str(date, "%Y-%m-%d") {
        Ok(d) => Ok((chrono::Datelike::year(&d), chrono::Datelike::month(&d), chrono::Datelike::day(&d))),
        Err(e) => Err(e.to_string()),
    }
}

/// The instants at which the clocks of the known zone `tz` show the wall
/// time `y-m-d hh:mm:ss` (chrono's `NaiveDateTime::and_local_timezone`,
/// each instant in epoch milliseconds). The result is named:
/// `wall_time_instants` of the arguments.
#[verifier::external_body]
fn local_instants(tz: &str, y: i32, m: u32, d: u32, hh: u32, mm: u32, ss: u32) -> (r: LocalInstants)
    requires
        zone_known(tz@),
    ensures
        r == wall_time_instants(tz@, y, m, d, hh, mm, ss),
{
    let zone: chrono_tz::Tz = match tz.parse() {
        Ok(z) => z,
        Err(_) => return LocalInstants::Gap,
    };
    let wall = match chrono::NaiveDate::from_ymd_opt(y, m, d) {
        Some(day) => day.and_hms_opt(hh, mm, ss),
        None => None,
    };
    match wall.map(|w| w.and_local_timezone(zone)) {
        Some(chrono::MappedLocalTime::Single(t)) => LocalInstants::Single(t.timestamp_millis()),
        Some(chrono::MappedLocalTime::Ambiguous(a, b)) => LocalInstants::Ambiguous(a.timestamp_millis(), b.timestamp_millis()),
        _ => LocalInstants::Gap,
    }
}

/// Name for the `Debug` form of a text: quoted, with escapes.
pub uninterp spec fn debug_text(text: Seq<char>) -> Seq<char>;

/// The text in its `Debug` form (std's `Debug for str`, through
/// `format!("{:?}")`): in double quotes, with quotes, backslashes and
/// control characters escaped. The result is named: `debug_text` of the
/// text.
#[verifier::external_body]
fn debug_quoted(text: &str) -> (r: String)
    ensures
        r@ == debug_text(text@),
{
    format!("{:?}", text)
}

/// The error for an unknown zone.
pub open spec fn unknown_zone_message(tz: Seq<char>) -> Seq<char> {
    "unknown timezone: "@ + debug_text(tz)
}

/// The error for a date that does not read, with chrono's reason.
pub open spec fn invalid_date_message(date: Seq<char>, reason: Seq<char>) -> Seq<char> {
    "invalid date "@ + debug_text(date) + ": expected YYYY-MM-DD: "@ + reason
}

/// The error for a midnight that the zone's clocks never show.
pub open spec fn no_midnight_message(date: Seq<char>, tz: Seq<char>) -> Seq<char> {
    "ambiguous or invalid local time for date "@ + debug_text(date) + " in tz "@ + debug_text(tz)
}

/// The expiry a set of instants gives: the only one, or the earlier of
/// two; none is an error.
pub open spec fn instants_outcome(i: LocalInstants, date: Seq<char>, tz: Seq<char>) -> Result<i64, Seq<char>> {
    match i {
        LocalInstants::Single(ms) => Ok(ms),
        LocalInstants::Ambiguous(first, _) => Ok(first),
        LocalInstants::Gap => Err(no_midnight_message(date, tz)),
    }
}

/// The expiry of `date` in zone `tz`: the zone is checked first, then the
/// date is read, then the instants of its midnight (00:00:00) are taken.
pub open spec fn expiry_outcome(date: Seq<char>, tz: Seq<char>) -> Result<i64, Seq<char>> {
    if !zone_known(tz) {
        Err(unknown_zone_message(tz))
    } else {
        match ymd_parse(date) {
            Err(reason) => Err(invalid_date_message(date, reason)),
            Ok((y, m, d)) => instants_outcome(wall_time_instants(tz, y, m, d, 0, 0, 0), date, tz),
        }
    }
}

/// `r` is the outcome `o`: the time stamp, or a configuration error with
/// that text.
pub open spec fn outcome_matches(r: Result<i64, TigerError>, o: Result<i64, Seq<char>>) -> bool {
    match o {
        Ok(ms) => r == Ok::<i64, TigerError>(ms),
        Err(m) => r matches Err(TigerError::Config(e)) && e@ == m,
    }
}

/// The expiry the instants of midnight give: the only one, the earlier of
/// two, or the error for a midnight that does not exist.
pub fn expiry_from_instants(instants: LocalInstants, date: &str, timezone: &str) -> (r: Result<
    i64,
    TigerError,
>)
    ensures
        outcome_matches(r, instants_outcome(instants, date@, timezone@)),
{
    match instants {
        LocalInstants::Single(ms) => Ok(ms),
        LocalInstants::Ambiguous(first, _) => Ok(first),
        LocalInstants::Gap => {
            let d = debug_quoted(date);
            let z = debug_quoted(timezone);
            let head = join_message("ambiguous or invalid local time for date ", d.as_str());
            let mid = join_message(head.as_str(), " in tz ");
            Err(TigerError::Config(join_message(mid.as_str(), z.as_str())))
        },
    }
}

/// `"YYYY-MM-DD"` → epoch milliseconds of local midnight in `timezone`:
/// an unknown zone is reported first, then a date that does not read, then
/// a midnight that does not exist; of two midnights the earlier is taken.
pub fn date_to_expiry_ms(date: &str, timezone: &str) -> (r: Result<i64, TigerError>)
    ensures
        outcome_matches(r, expiry_outcome(date@, timezone@)),
{
    if !tz_known(timezone) {
        let z = debug_quoted(timezone);
        return Err(TigerError::Config(join_message("unknown timezone: ", z.as_str())));
    }
    match parse_ymd(date) {
        Err(reason) => {
            let d = debug_quoted(date);
            let head = join_message("invalid date ", d.as_str());
            let mid = join_message(head.as_str(), ": expected YYYY-MM-DD: ");
            Err(TigerError::Config(join_message(mid.as_str(), reason.as_str())))
        },
        Ok((y, m, d)) => {
            let instants = local_instants(timezone, y, m, d, 0, 0, 0);
            expiry_from_instants(instants, date, timezone)
        },
    }
}

// ---- OCC identifiers -----------------------------------------------------

/// Bytes that `c` takes in UTF-8.
pub open spec fn utf8_width(c: char) -> nat {
    if (c as u32) < 0x80 {
        1
    } else if (c as u32) < 0x800 {
        2
    } else if (c as u32) < 0x10000 {
        3
    } else {
        4
    }
}

/// Bytes that `s` takes in UTF-8.
pub open spec fn utf8_len(s: Seq<char>) -> nat
    decreases s.len(),
{
    if s.len() == 0 {
        0
    } else {
        utf8_len(s.drop_last()) + utf8_width(s.last())
    }
}

/// Byte offset `b` of the UTF-8 form of `s` falls between two characters.
pub open spec fn on_char_boundary(s: Seq<char>, b: nat) -> bool {
    exists|i: int| 0 <= i <= s.len() && #[trigger] utf8_len(s.take(i)) == b
}

/// Position of the first space.
pub open spec fn space_index(s: Seq<char>) -> Option<int>
    decreases s.len(),
{
    if s.len() == 0 {
        None
    } else if s[0] == ' ' {
        Some(0)
    } else {
        match space_index(s.drop_first()) {
            Some(i) => Some(i + 1),
            None => None,
        }
    }
}

/// The trimmed identifier split at its first space into the underlying
/// symbol and the rest (with leading whitespace removed).
pub open spec fn occ_split(id: Seq<char>) -> Option<(Seq<char>, Seq<char>)> {
    let t = trim(id);
    match space_index(t) {
        None => None,
        Some(i) => Some((t.subrange(0, i), trim_start(t.subrange(i + 1, t.len() as int)))),
    }
}

/// The identifier's byte offsets at which its suffix is cut (2, 4, 6, 7)
/// fall between characters, so that cutting it is defined.
pub open spec fn occ_cuts_defined(id: Seq<char>) -> bool {
    match occ_split(id) {
        Some((_, rest)) => utf8_len(rest) >= 15 ==> {
            &&& on_char_boundary(rest, 2)
            &&& on_char_boundary(rest, 6)
            &&& on_char_boundary(rest, 7)
            &&& (i32_value(rest.subrange(0, 2)) is Some ==> on_char_boundary(rest, 4))
        },
        None => true,
    }
}

/// The fields of an OCC identifier (`SYMBOL YYMMDD{C|P}SSSSSddd`): symbol,
/// expiry date `YYYY-MM-DD`, `Call`/`Put`, and the strike with three
/// decimals (the eight strike digits are thousandths).
pub open spec fn occ_contract(id: Seq<char>) -> Option<(Seq<char>, Seq<char>, Seq<char>, Seq<char>)> {
    match occ_split(id) {
        None => None,
        Some((symbol, rest)) => {
            if rest.len() < 15 {
                None
            } else {
                let y = i32_value(rest.subrange(0, 2));
                let m = unsigned_value(rest.subrange(2, 4), 0xffff_ffff);
                let d = unsigned_value(rest.subrange(4, 6), 0xffff_ffff);
                let k = unsigned_value(rest.subrange(7, rest.len() as int), 0xffff_ffff_ffff_ffff);
                if y is None || m is None || d is None || k is None || !(rest[6] == 'C' || rest[6]
                    == 'P') {
                    None
                } else {
                    let year = (2000 + y.unwrap()) as nat;
                    let strike = k.unwrap();
                    Some(
                        (
                            symbol,
                            padded(year, 4) + seq!['-'] + padded(m.unwrap(), 2) + seq!['-'] + padded(
                                d.unwrap(),
                                2,
                            ),
                            if rest[6] == 'C' {
                                "Call"@
                            } else {
                                "Put"@
                            },
                            decimal(strike / 1000) + seq!['.'] + padded(strike % 1000, 3),
                        ),
                    )
                }
            }
        },
    }
}

/// The parts of a parsed OCC identifier.
pub struct OccContract {
    pub symbol: String,
    /// `YYYY-MM-DD`
    pub expiry_date: String,
    /// `Call` or `Put`
    pub right: String,
    pub strike: String,
}

proof fn lemma_space_index(s: Seq<char>)
    ensures
        match space_index(s) {
            Some(i) => 0 <= i < s.len() && s[i] == ' ' && forall|j: int| 0 <= j < i ==> s[j] != ' ',
            None => forall|j: int| 0 <= j < s.len() ==> s[j] != ' ',
        },
    decreases s.len(),
{
    if s.len() > 0 {
        lemma_space_index(s.drop_first());
        if s[0] != ' ' {
            assert forall|j: int| 1 <= j < s.len() implies s[j] == s.drop_first()[j - 1] by {}
        }
    }
}

proof fn lemma_space_index_at(s: Seq<char>, i: int)
    requires
        0 <= i <= s.len(),
        i < s.len() ==> s[i] == ' ',
        forall|j: int| 0 <= j < i ==> s[j] != ' ',
    ensures
        space_index(s) == if i < s.len() {
            Some(i)
        } else {
            None::<int>
        },
    decreases i,
{
    if i > 0 && s.len() > 0 {
        lemma_space_index_at(s.drop_first(), i - 1);
    }
}

proof fn lemma_two_char_year(t: Seq<char>)
    requires
        t.len() == 2,
        i32_value(t) is Some,
    ensures
        -9 <= i32_value(t).unwrap() <= 99,
{
    let body = if t[0] == '-' || t[0] == '+' {
        t.drop_first()
    } else {
        t
    };
    assert(crate::numtext::all_digits(body));
    assert(crate::numtext::digits_value(body) <= 99) by {
        let b0 = body.drop_last();
        assert(crate::numtext::is_digit(body.last()));
        assert(crate::numtext::digit_value(body.last()) <= 9);
        if b0.len() == 1 {
            assert(b0.last() == body[0]);
            assert(crate::numtext::is_digit(body[0]));
            assert(crate::numtext::digit_value(b0.last()) <= 9);
            assert(b0.drop_last().len() == 0);
            assert(crate::numtext::digits_value(b0.drop_last()) == 0);
            assert(crate::numtext::digits_value(b0) <= 9);
        } else {
            assert(b0.len() == 0);
        }
    }
    if t[0] == '-' {
        assert(body.len() == 1);
        assert(body.drop_last().len() == 0);
        assert(crate::numtext::digits_value(body.drop_last()) == 0);
        assert(crate::numtext::digits_value(body) <= 9);
    }
}

/// `YYYY-MM-DD` for an OCC date.
fn format_occ_date(y: i32, m: u64, d: u64) -> (r: String)
    requires
        -9 <= y <= 99,
    ensures
        r@ == padded((2000 + y) as nat, 4) + seq!['-'] + padded(m as nat, 2) + seq!['-'] + padded(d as nat, 2),
{
    let mut date: Vec<char> = Vec::new();
    push_padded(&mut date, (2000 + y) as u64, 4);
    date.push('-');
    push_padded(&mut date, m, 2);
    date.push('-');
    push_padded(&mut date, d, 2);
    string_of(&date)
}

/// A strike in thousandths written with three decimals.
fn format_strike(k: u64) -> (r: String)
    ensures
        r@ == decimal((k / 1000) as nat) + seq!['.'] + padded((k % 1000) as nat, 3),
{
    let mut st: Vec<char> = Vec::new();
    push_decimal(&mut st, k / 1000);
    st.push('.');
    push_padded(&mut st, k % 1000, 3);
    string_of(&st)
}

/// Parses an OCC option identifier such as `AAPL 240119C00150000` (the
/// symbol may be padded with several spaces).
#[verifier::rlimit(40)]
pub fn parse_occ_identifier(identifier: &str) -> (r: Result<OccContract, TigerError>)
    requires
        occ_cuts_defined(identifier@),
    ensures
        match occ_contract(identifier@) {
            None => r matches Err(TigerError::Config(_)),
            Some((symbol, date, right, strike)) => r matches Ok(c) && c.symbol@ == symbol
                && c.expiry_date@ == date && c.right@ == right && c.strike@ == strike,
        },
{
    let s = chars_of(identifier);
    let n = s.len();
    assert(s@.subrange(0, n as int) =~= s@);
    let (a, b) = trim_bounds(&s, 0, n);
    let ghost t = s@.subrange(a as int, b as int);
    let mut p = a;
    while p < b && s[p] != ' '
        invariant
            a <= p <= b <= n == s@.len(),
            t == s@.subrange(a as int, b as int),
            forall|j: int| 0 <= j < p - a ==> t[j] != ' ',
        decreases b - p,
    {
        p = p + 1;
    }
    proof {
        lemma_space_index_at(t, p - a);
    }
    if p == b {
        return Err(TigerError::Config(join_message("invalid OCC identifier (missing suffix): ", identifier)));
    }
    let c = skip_ws_forward(&s, p + 1, b);
    let ghost rest = s@.subrange(c as int, b as int);
    proof {
        assert(t.subrange(0, p - a) =~= s@.subrange(a as int, p as int));
        assert(t.subrange(p - a + 1, t.len() as int) =~= s@.subrange(p + 1, b as int));
    }
    if b - c < 15 {
        return Err(TigerError::Config(join_message("invalid OCC identifier (suffix too short): ", identifier)));
    }
    proof {
        assert(rest.subrange(0, 2) =~= s@.subrange(c as int, c + 2));
        assert(rest.subrange(2, 4) =~= s@.subrange(c + 2, c + 4));
        assert(rest.subrange(4, 6) =~= s@.subrange(c + 4, c + 6));
        assert(rest.subrange(7, rest.len() as int) =~= s@.subrange(c + 7, b as int));
        assert(rest[6] == s@[c + 6]);
    }
    let year = parse_i32(&s, c, c + 2);
    let month = parse_unsigned(&s, c + 2, c + 4, 0xffff_ffff);
    let day = parse_unsigned(&s, c + 4, c + 6, 0xffff_ffff);
    let strike = parse_unsigned(&s, c + 7, b, 0xffff_ffff_ffff_ffff);
    let rc = s[c + 6];
    match (year, month, day, strike) {
        (Some(y), Some(m), Some(d), Some(k)) => {
            if rc != 'C' && rc != 'P' {
                return Err(TigerError::Config(join_message("invalid OCC right: ", identifier)));
            }
            proof {
                lemma_two_char_year(rest.subrange(0, 2));
            }
            let expiry_date = format_occ_date(y, m, d);
            let strike = format_strike(k);
            let right = if rc == 'C' { owned("Call") } else { owned("Put") };
            let symbol = crate::text::string_of_range(&s, a, p);
            Ok(OccContract { symbol, expiry_date, right, strike })
        },
        _ => Err(TigerError::Config(join_message("invalid OCC identifier: ", identifier))),
    }
}

// ---- option request items ------------------------------------------------

impl OptionChainItem {
    /// An option-chain query item from an expiry timestamp (epoch ms).
    pub fn new(symbol: &str, expiry: i64) -> (r: Self)
        ensures
            r.symbol@ == symbol@,
            r.expiry == expiry,
    {
        OptionChainItem { symbol: owned(symbol), expiry }
    }

    /// An option-chain query item from a `YYYY-MM-DD` expiry date, read in
    /// the time zone inferred from the symbol.
    pub fn from_date(symbol: &str, date: &str) -> (r: Result<Self, TigerError>)
        ensures
            match expiry_outcome(date@, option_timezone(symbol@)) {
                Ok(ms) => r matches Ok(item) && item.symbol@ == symbol@ && item.expiry == ms,
                Err(msg) => r matches Err(TigerError::Config(e)) && e@ == msg,
            },
    {
        let tz = infer_option_timezone(symbol);
        let expiry = date_to_expiry_ms(date, tz)?;
        Ok(OptionChainItem { symbol: owned(symbol), expiry })
    }

    /// An option-chain query item from a `YYYY-MM-DD` expiry date read in
    /// `timezone`.
    pub fn from_date_tz(symbol: &str, date: &str, timezone: &str) -> (r: Result<Self, TigerError>)
        ensures
            match expiry_outcome(date@, timezone@) {
                Ok(ms) => r matches Ok(item) && item.symbol@ == symbol@ && item.expiry == ms,
                Err(msg) => r matches Err(TigerError::Config(e)) && e@ == msg,
            },
    {
        let expiry = date_to_expiry_ms(date, timezone)?;
        Ok(OptionChainItem { symbol: owned(symbol), expiry })
    }
}

impl OptionChainRequest {
    /// An option-chain request for `items`.
    pub fn new(items: Vec<OptionChainItem>) -> (r: Self)
        ensures
            r.option_basic == Some(items),
            r.market is None,
            r.lang is None,
    {
        OptionChainRequest { option_basic: Some(items), market: None, lang: None }
    }
}

impl OptionContractItem {
    /// An option-quote item from its fields.
    pub fn new(symbol: &str, expiry: i64, right: &str, strike: &str) -> (r: Self)
        ensures
            r.symbol@ == symbol@,
            r.expiry == expiry,
            r.right@ == right@,
            r.strike@ == strike@,
    {
        OptionContractItem { symbol: owned(symbol), expiry, right: owned(right), strike: owned(strike) }
    }

    /// An option-quote item from an OCC identifier, its expiry read in the
    /// time zone inferred from the symbol.
    pub fn from_occ(identifier: &str) -> (r: Result<Self, TigerError>)
        requires
            occ_cuts_defined(identifier@),
        ensures
            match occ_contract(identifier@) {
                None => r matches Err(TigerError::Config(_)),
                Some((symbol, date, right, strike)) => match expiry_outcome(date, option_timezone(symbol)) {
                    Ok(ms) => r matches Ok(item) && item.symbol@ == symbol && item.expiry
                        == ms && item.right@ == right && item.strike@ == strike,
                    Err(msg) => r matches Err(TigerError::Config(e)) && e@ == msg,
                },
            },
    {
        let c = parse_occ_identifier(identifier)?;
        let tz = infer_option_timezone(c.symbol.as_str());
        let expiry = date_to_expiry_ms(c.expiry_date.as_str(), tz)?;
        Ok(OptionContractItem { symbol: c.symbol, expiry, right: c.right, strike: c.strike })
    }

    /// An option-quote item from an OCC identifier, its expiry read in
    /// `timezone`.
    pub fn from_occ_tz(identifier: &str, timezone: &str) -> (r: Result<Self, TigerError>)
        requires
            occ_cuts_defined(identifier@),
        ensures
            match occ_contract(identifier@) {
                None => r matches Err(TigerError::Config(_)),
                Some((symbol, date, right, strike)) => match expiry_outcome(date, timezone@) {
                    Ok(ms) => r matches Ok(item) && item.symbol@ == symbol && item.expiry
                        == ms && item.right@ == right && item.strike@ == strike,
                    Err(msg) => r matches Err(TigerError::Config(e)) && e@ == msg,
                },
            },
    {
        let c = parse_occ_identifier(identifier)?;
        let expiry = date_to_expiry_ms(c.expiry_date.as_str(), timezone)?;
        Ok(OptionContractItem { symbol: c.symbol, expiry, right: c.right, strike: c.strike })
    }
}

impl OptionQuoteRequest {
    /// An option-quote request for `items`.
    pub fn new(items: Vec<OptionContractItem>) -> (r: Self)
        ensures
            r.option_basic == Some(items),
            r.market is None,
            r.lang is None,
    {
        OptionQuoteRequest { option_basic: Some(items), market: None, lang: None }
    }
}

impl OptionKlineItem {
    /// An option k-line item from its fields (no time window or limit).
    pub fn new(symbol: &str, expiry: i64, right: &str, strike: &str, period: &str) -> (r: Self)
        ensures
            r.symbol@ == symbol@,
            r.expiry == expiry,
            r.right@ == right@,
            r.strike@ == strike@,
            r.period@ == period@,
            r.begin_time is None,
            r.end_time is None,
            r.limit is None,
    {
        OptionKlineItem {
            symbol: owned(symbol),
            expiry,
            right: owned(right),
            strike: owned(strike),
            period: owned(period),
            begin_time: None,
            end_time: None,
            limit: None,
        }
    }

    /// An option k-line item from an OCC identifier, its expiry read in the
    /// time zone inferred from the symbol.
    pub fn from_occ(identifier: &str, period: &str) -> (r: Result<Self, TigerError>)
        requires
            occ_cuts_defined(identifier@),
        ensures
            match occ_contract(identifier@) {
                None => r matches Err(TigerError::Config(_)),
                Some((symbol, date, right, strike)) => match expiry_outcome(date, option_timezone(symbol)) {
                    Ok(ms) => r matches Ok(item) && item.symbol@ == symbol && item.expiry
                        == ms && item.right@ == right && item.strike@ == strike && item.period@ == period@
                        && item.begin_time is None && item.end_time is None && item.limit is None,
                    Err(msg) => r matches Err(TigerError::Config(e)) && e@ == msg,
                },
            },
    {
        let c = parse_occ_identifier(identifier)?;
        let tz = infer_option_timezone(c.symbol.as_str());
        let expiry = date_to_expiry_ms(c.expiry_date.as_str(), tz)?;
        Ok(
            OptionKlineItem {
                symbol: c.symbol,
                expiry,
                right: c.right,
                strike: c.strike,
                period: owned(period),
                begin_time: None,
                end_time: None,
                limit: None,
            },
        )
    }

    /// An option k-line item from an OCC identifier, its expiry read in
    /// `timezone`.
    pub fn from_occ_tz(identifier: &str, period: &str, timezone: &str) -> (r: Result<Self, TigerError>)
        requires
            occ_cuts_defined(identifier@),
        ensures
            match occ_contract(identifier@) {
                None => r matches Err(TigerError::Config(_)),
                Some((symbol, date, right, strike)) => match expiry_outcome(date, timezone@) {
                    Ok(ms) => r matches Ok(item) && item.symbol@ == symbol && item.expiry
                        == ms && item.right@ == right && item.strike@ == strike && item.period@ == period@
                        && item.begin_time is None && item.end_time is None && item.limit is None,
                    Err(msg) => r matches Err(TigerError::Config(e)) && e@ == msg,
                },
            },
    {
        let c = parse_occ_identifier(identifier)?;
        let expiry = date_to_expiry_ms(c.expiry_date.as_str(), timezone)?;
        Ok(
            OptionKlineItem {
                symbol: c.symbol,
                expiry,
                right: c.right,
                strike: c.strike,
                period: owned(period),
                begin_time: None,
                end_time: None,
                limit: None,
            },
        )
    }
}

} // verus!
