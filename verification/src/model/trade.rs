//! Trade response records without floating-point fields.

use vstd::prelude::*;

verus! {

/// 仅含订单 ID 的响应（ModifyOrder/CancelOrder）
#[derive(Debug, Clone, Default)]
pub struct OrderIdResult {
    pub id: i64,
}

/// 机构子账户信息（来自 /accounts）。
#[derive(Debug, Clone, Default)]
pub struct ManagedAccount {
    pub account: String,
    pub account_type: String,
    pub capability: String,
    pub status: String,
}

/// 内部转股单项（响应结构，含 camelCase 反序列化）。
#[derive(Debug, Clone, Default)]
pub struct TransferItemResponse {
    pub symbol: String,
    pub quantity: i64,
    pub expiry: String,
    pub strike: String,
    pub right: String,
    pub sec_type: String,
}

/// 内部转股记录。
#[derive(Debug, Clone, Default)]
pub struct PositionTransferRecord {
    pub id: String,
    pub from_account: String,
    pub to_account: String,
    pub market: String,
    pub status: String,
    pub submit_time: i64,
    pub transfers: Option<Vec<TransferItemResponse>>,
}

/// 内部转股详情。
#[derive(Debug, Clone, Default)]
pub struct PositionTransferDetail {
    pub id: String,
    pub from_account: String,
    pub to_account: String,
    pub market: String,
    pub status: String,
    pub submit_time: i64,
    pub update_time: i64,
    pub transfers: Vec<TransferItemResponse>,
    pub remark: String,
}

/// 外部转股记录。
#[derive(Debug, Clone, Default)]
pub struct PositionTransferExternalRecord {
    pub id: String,
    pub market: String,
    pub symbol: String,
    pub quantity: i64,
    pub direction: String,
    pub status: String,
    pub submit_time: i64,
    pub update_time: i64,
}

} // verus!
