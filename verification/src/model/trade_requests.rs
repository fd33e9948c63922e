//! Trade request parameters (snake_case wire names).

use vstd::prelude::*;

verus! {

/// TransferItem — 内部转股单项（用于 PositionTransferRequest.transfers）。
#[derive(Debug, Clone, Default)]
pub struct TransferItem {
    pub symbol: Option<String>,
    pub quantity: Option<i64>,
    pub expiry: Option<String>,
    pub strike: Option<String>,
    pub right: Option<String>,
    pub sec_type: Option<String>,
}

/// OrdersRequest — 查询订单列表。
/// wire methods: orders / active_orders / inactive_orders / filled_orders
#[derive(Debug, Clone, Default)]
pub struct OrdersRequest {
    pub account: Option<String>,
    pub sec_type: Option<String>,
    pub market: Option<String>,
    pub symbol: Option<String>,
    /// ms 时间戳
    pub start_date: Option<i64>,
    /// ms 时间戳
    pub end_date: Option<i64>,
    pub limit: Option<i32>,
    pub is_brief: Option<bool>,
    pub states: Option<Vec<String>>,
    pub sort_by: Option<String>,
    pub seg_type: Option<String>,
    pub lang: Option<String>,
    pub page_token: Option<String>,
    /// 仅 active_orders 使用
    pub parent_id: Option<i64>,
}

/// GetOrderRequest — 按订单 ID 查询单个订单。
/// wire method: order_no
#[derive(Debug, Clone, Default)]
pub struct GetOrderRequest {
    pub account: Option<String>,
    /// 全局订单 ID
    pub id: Option<i64>,
    /// 账户维度订单 ID
    pub order_id: Option<i64>,
    pub is_brief: Option<bool>,
    pub show_charges: Option<bool>,
    pub lang: Option<String>,
}

/// PositionsRequest — 查询持仓。
/// wire method: positions
#[derive(Debug, Clone, Default)]
pub struct PositionsRequest {
    pub account: Option<String>,
    pub sec_type: Option<String>,
    pub currency: Option<String>,
    pub market: Option<String>,
    pub symbol: Option<String>,
    pub sub_accounts: Option<Vec<String>>,
    pub expiry: Option<String>,
    pub strike: Option<String>,
    pub right: Option<String>,
    pub asset_quote_type: Option<String>,
    pub lang: Option<String>,
}

/// AssetsRequest — 查询资产。
/// wire methods: assets / prime_assets
#[derive(Debug, Clone, Default)]
pub struct AssetsRequest {
    pub account: Option<String>,
    pub sub_accounts: Option<Vec<String>>,
    pub segment: Option<bool>,
    pub market_value: Option<bool>,
    pub lang: Option<String>,
}

/// ManagedAccountsRequest — 查询机构子账户列表。
/// wire method: accounts
#[derive(Debug, Clone, Default)]
pub struct ManagedAccountsRequest {
    pub account: Option<String>,
    pub lang: Option<String>,
}

/// DerivativeContractsRequest — 查询衍生品合约列表。
/// wire method: derivative_contracts
#[derive(Debug, Clone, Default)]
pub struct DerivativeContractsRequest {
    pub account: Option<String>,
    pub symbols: Option<Vec<String>>,
    pub sec_type: Option<String>,
    pub expiry: Option<String>,
    pub lang: Option<String>,
}

/// AnalyticsAssetRequest — 查询资产分析（按日）。
/// wire method: analytics_asset
/// 注意：start_date/end_date 是字符串格式 "YYYY-MM-DD"，与 OrdersRequest 不同。
#[derive(Debug, Clone, Default)]
pub struct AnalyticsAssetRequest {
    pub account: Option<String>,
    pub seg_type: Option<String>,
    /// 格式 "YYYY-MM-DD"
    pub start_date: Option<String>,
    /// 格式 "YYYY-MM-DD"
    pub end_date: Option<String>,
    pub lang: Option<String>,
}

/// AggregateAssetsRequest — 查询综合资产（base_currency 视角汇总）。
/// wire method: aggregate_assets
#[derive(Debug, Clone, Default)]
pub struct AggregateAssetsRequest {
    pub account: Option<String>,
    pub base_currency: Option<String>,
    pub seg_type: Option<String>,
    pub lang: Option<String>,
}

/// FundDetailsRequest — 资金明细。
/// wire method: fund_details
///
/// **Wire types:** `start_date` / `end_date` are yyyy-MM-dd strings, not
/// epoch-ms integers; the gateway rejects integers with
/// "parse 'start_date' error, supported format: 'yyyy-MM-dd'".
#[derive(Debug, Clone, Default)]
pub struct FundDetailsRequest {
    pub account: Option<String>,
    pub seg_types: Option<Vec<String>>,
    pub fund_type: Option<String>,
    pub currency: Option<String>,
    /// 起始日期(yyyy-MM-dd)
    pub start_date: Option<String>,
    /// 结束日期(yyyy-MM-dd)
    pub end_date: Option<String>,
    pub limit: Option<i32>,
    pub page_token: Option<String>,
    pub lang: Option<String>,
}

/// FundingHistoryRequest — 资金调拨历史。
/// wire method: transfer_fund
#[derive(Debug, Clone, Default)]
pub struct FundingHistoryRequest {
    pub account: Option<String>,
    pub seg_type: Option<String>,
    pub currency: Option<String>,
    /// ms 时间戳
    pub start_date: Option<i64>,
    /// ms 时间戳
    pub end_date: Option<i64>,
    pub limit: Option<i32>,
    pub lang: Option<String>,
}

/// PositionTransferRequest — 内部转股（跨账户换仓）。
/// wire method: position_transfer
#[derive(Debug, Clone, Default)]
pub struct PositionTransferRequest {
    pub from_account: Option<String>,
    pub to_account: Option<String>,
    pub market: Option<String>,
    pub transfers: Option<Vec<TransferItem>>,
    pub lang: Option<String>,
}

/// PositionTransferRecordsRequest — 内部转股记录查询。
/// wire method: position_transfer_records
/// 注意：账户字段 wire 名为 account_id（不是 account）；TradeClient 会自动注入。
#[derive(Debug, Clone, Default)]
pub struct PositionTransferRecordsRequest {
    /// 账户 ID（wire 字段名 "account_id"）
    pub account_id: Option<String>,
    /// 格式 "YYYY-MM-DD"
    pub since_date: Option<String>,
    /// 格式 "YYYY-MM-DD"
    pub to_date: Option<String>,
    pub market: Option<String>,
    pub limit: Option<i32>,
    pub lang: Option<String>,
}

/// PositionTransferDetailRequest — 内部转股详情（按 ID）。
/// wire method: position_transfer_detail
#[derive(Debug, Clone, Default)]
pub struct PositionTransferDetailRequest {
    pub account_id: Option<String>,
    pub id: Option<String>,
    pub lang: Option<String>,
}

/// PositionTransferExternalRecordsRequest — 外部转股记录查询。
/// wire method: position_transfer_external_records
/// 参数字段与 PositionTransferRecordsRequest 相同。
#[derive(Debug, Clone, Default)]
pub struct PositionTransferExternalRecordsRequest {
    pub account_id: Option<String>,
    pub since_date: Option<String>,
    pub to_date: Option<String>,
    pub market: Option<String>,
    pub limit: Option<i32>,
    pub lang: Option<String>,
}

/// OptionExercisePositionRequest — 查询可行权持仓请求。
/// wire method: option_exercise_position
#[derive(Debug, Clone, Default)]
pub struct OptionExercisePositionRequest {
    pub account: Option<String>,
    pub secret_key: Option<String>,
    /// Exercise | Expire
    pub exercise_type: Option<String>,
    pub lang: Option<String>,
}

/// OptionExerciseRecordsRequest — 分页查询行权记录请求。
/// wire method: option_exercise_record
#[derive(Debug, Clone, Default)]
pub struct OptionExerciseRecordsRequest {
    pub account: Option<String>,
    pub secret_key: Option<String>,
    /// 从 1 开始，默认 1
    pub page: Option<i32>,
    /// 1–100，默认 20
    pub size: Option<i32>,
    /// New | Cancel | Success | Fail
    pub status: Option<String>,
    /// Exercise | Expire
    pub exercise_type: Option<String>,
    pub symbol: Option<String>,
    /// symbol | expire_date | strike | is_call
    pub order_by: Option<String>,
    pub lang: Option<String>,
}

/// OptionExerciseCancelRequest — 撤销行权申请请求。
/// wire method: option_exercise_cancel
#[derive(Debug, Clone, Default)]
pub struct OptionExerciseCancelRequest {
    pub account: Option<String>,
    pub secret_key: Option<String>,
    pub id: Option<i64>,
    pub lang: Option<String>,
}

} // verus!
