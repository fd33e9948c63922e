//! Classification of API error codes.

use vstd::prelude::*;

verus! {

/// The families of API error codes.
#[derive(Debug, Clone, Copy, PartialEq, Eq, Structural)]
pub enum ErrorCategory {
    /// Success.
    Success,
    /// A common-parameter error.
    CommonParamError,
    /// A business-parameter error.
    BizParamError,
    /// Rate limiting.
    RateLimit,
    /// A trading error of a global account.
    TradeGlobalError,
    /// A trading error of a prime account.
    TradePrimeError,
    /// A trading error of a paper-trading account.
    TradeSimulationError,
    /// A stock-quote error.
    QuoteStockError,
    /// An option-quote error.
    QuoteOptionError,
    /// A futures-quote error.
    QuoteFutureError,
    /// A token error.
    TokenError,
    /// A permission error.
    PermissionError,
    /// A server-side error.
    ServerError,
    /// Any other code.
    UnknownError,
}

/// The category of `code`: 0 success, 5 rate limit, and the ranges
/// 1000–1009, 1010–1099, 1100–1199, 1200–1299, 1300–2099, 2100–2199,
/// 2200–2299, 2300–2399, 2400–3999 and 4000–4999; anything else is unknown.
pub open spec fn error_category(code: int) -> ErrorCategory {
    if code == 0 {
        ErrorCategory::Success
    } else if code == 5 {
        ErrorCategory::RateLimit
    } else if 1000 <= code < 1010 {
        ErrorCategory::CommonParamError
    } else if 1010 <= code < 1100 {
        ErrorCategory::BizParamError
    } else if 1100 <= code < 1200 {
        ErrorCategory::TradeGlobalError
    } else if 1200 <= code < 1300 {
        ErrorCategory::TradePrimeError
    } else if 1300 <= code < 2100 {
        ErrorCategory::TradeSimulationError
    } else if 2100 <= code < 2200 {
        ErrorCategory::QuoteStockError
    } else if 2200 <= code < 2300 {
        ErrorCategory::QuoteOptionError
    } else if 2300 <= code < 2400 {
        ErrorCategory::QuoteFutureError
    } else if 2400 <= code < 4000 {
        ErrorCategory::TokenError
    } else if 4000 <= code < 5000 {
        ErrorCategory::PermissionError
    } else {
        ErrorCategory::UnknownError
    }
}

/// The category of an API error code.
pub fn classify_error_code(code: i32) -> (c: ErrorCategory)
    ensures
        c == error_category(code as int),
{
    if code == 0 {
        ErrorCategory::Success
    } else if code == 5 {
        ErrorCategory::RateLimit
    } else if 1000 <= code && code < 1010 {
        ErrorCategory::CommonParamError
    } else if 1010 <= code && code < 1100 {
        ErrorCategory::BizParamError
    } else if 1100 <= code && code < 1200 {
        ErrorCategory::TradeGlobalError
    } else if 1200 <= code && code < 1300 {
        ErrorCategory::TradePrimeError
    } else if 1300 <= code && code < 2100 {
        ErrorCategory::TradeSimulationError
    } else if 2100 <= code && code < 2200 {
        ErrorCategory::QuoteStockError
    } else if 2200 <= code && code < 2300 {
        ErrorCategory::QuoteOptionError
    } else if 2300 <= code && code < 2400 {
        ErrorCategory::QuoteFutureError
    } else if 2400 <= code && code < 4000 {
        ErrorCategory::TokenError
    } else if 4000 <= code && code < 5000 {
        ErrorCategory::PermissionError
    } else {
        ErrorCategory::UnknownError
    }
}

} // verus!
