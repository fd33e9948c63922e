//! Subscription subjects of the push channel.

use vstd::prelude::*;

verus! {

/// What a subscription is for: market data per symbol, or account events.
#[derive(Debug, Clone, Copy, PartialEq, Eq, Hash, Structural)]
pub enum SubjectType {
    Quote,
    Tick,
    Depth,
    Option,
    Future,
    Kline,
    StockTop,
    OptionTop,
    FullTick,
    QuoteBbo,
    Asset,
    Position,
    Order,
    Transaction,
}

} // verus!
