//! Order-request pieces without prices: the legs of a multi-leg (MLEG)
//! combination order.

use vstd::prelude::*;
use crate::text::owned;

verus! {

/// One leg of a multi-leg combination order.
#[derive(Debug, Clone, Default, PartialEq, Eq)]
pub struct ContractLegRequest {
    pub symbol: Option<String>,
    pub sec_type: Option<String>,
    pub expiry: Option<String>,
    pub strike: Option<String>,
    pub right: Option<String>,
    pub action: Option<String>,
    /// The leg's ratio (greater than 0).
    pub ratio: Option<i32>,
}

/// The view of an optional text.
pub open spec fn text_of(s: Option<&str>) -> Option<Seq<char>> {
    match s {
        Some(t) => Some(t@),
        None => None,
    }
}

/// The view of an optional `String`.
pub open spec fn string_view(s: Option<String>) -> Option<Seq<char>> {
    match s {
        Some(t) => Some(t@),
        None => None,
    }
}

fn copy_opt(s: Option<&str>) -> (r: Option<String>)
    ensures
        string_view(r) == text_of(s),
{
    match s {
        Some(t) => Some(owned(t)),
        None => None,
    }
}

/// A leg of a combination order.
pub fn contract_leg(
    symbol: &str,
    sec_type: &str,
    action: &str,
    ratio: i32,
    expiry: Option<&str>,
    strike: Option<&str>,
    right: Option<&str>,
) -> (leg: ContractLegRequest)
    ensures
        string_view(leg.symbol) == Some(symbol@),
        string_view(leg.sec_type) == Some(sec_type@),
        string_view(leg.action) == Some(action@),
        leg.ratio == Some(ratio),
        string_view(leg.expiry) == text_of(expiry),
        string_view(leg.strike) == text_of(strike),
        string_view(leg.right) == text_of(right),
{
    ContractLegRequest {
        symbol: Some(owned(symbol)),
        sec_type: Some(owned(sec_type)),
        action: Some(owned(action)),
        ratio: Some(ratio),
        expiry: copy_opt(expiry),
        strike: copy_opt(strike),
        right: copy_opt(right),
    }
}

} // verus!
