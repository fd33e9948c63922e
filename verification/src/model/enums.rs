//! Enumerations of the API, each with its wire name: `as_str` gives the
//! name a value is sent as, `from_wire` reads it back.

use vstd::prelude::*;
use crate::text::{owned, str_eq};

verus! {

/// A market.
#[derive(Debug, Clone, Copy, PartialEq, Eq, Structural)]
pub enum Market {
    /// `ALL`
    All,
    /// `US`
    Us,
    /// `HK`
    Hk,
    /// `CN`
    Cn,
    /// `SG`
    Sg,
}

impl Market {
    /// The name this value has on the wire.
    pub open spec fn wire(self) -> Seq<char> {
        match self {
            Market::All => "ALL"@,
            Market::Us => "US"@,
            Market::Hk => "HK"@,
            Market::Cn => "CN"@,
            Market::Sg => "SG"@,
        }
    }

    /// The value whose wire name is `s`, if any.
    pub open spec fn from_wire_spec(s: Seq<char>) -> Option<Market> {
        if s == "ALL"@ {
            Some(Market::All)
        } else if s == "US"@ {
            Some(Market::Us)
        } else if s == "HK"@ {
            Some(Market::Hk)
        } else if s == "CN"@ {
            Some(Market::Cn)
        } else if s == "SG"@ {
            Some(Market::Sg)
        } else {
            None
        }
    }

    /// The wire name of `self`.
    pub fn as_str(&self) -> (s: &'static str)
        ensures
            s@ == self.wire(),
    {
        match self {
            Market::All => "ALL",
            Market::Us => "US",
            Market::Hk => "HK",
            Market::Cn => "CN",
            Market::Sg => "SG",
        }
    }

    /// The value whose wire name is `s`, if any.
    pub fn from_wire(s: &str) -> (r: Option<Market>)
        ensures
            r == Market::from_wire_spec(s@),
    {
        if str_eq(s, "ALL") {
            Some(Market::All)
        } else if str_eq(s, "US") {
            Some(Market::Us)
        } else if str_eq(s, "HK") {
            Some(Market::Hk)
        } else if str_eq(s, "CN") {
            Some(Market::Cn)
        } else if str_eq(s, "SG") {
            Some(Market::Sg)
        } else {
            None
        }
    }

    /// Reading back a wire name gives the value it was written from.
    pub proof fn law_wire_roundtrip(self)
        ensures
            Market::from_wire_spec(self.wire()) == Some(self),
    {
        match self {
            Market::All => {
                reveal_strlit("ALL");
            },
            Market::Us => {
                reveal_strlit("US");
                reveal_strlit("ALL");
                assert("US"@.len() != "ALL"@.len());
            },
            Market::Hk => {
                reveal_strlit("HK");
                reveal_strlit("ALL");
                assert("HK"@.len() != "ALL"@.len());
                reveal_strlit("US");
                assert("HK"@[0] != "US"@[0]);
            },
            Market::Cn => {
                reveal_strlit("CN");
                reveal_strlit("ALL");
                assert("CN"@.len() != "ALL"@.len());
                reveal_strlit("US");
                assert("CN"@[0] != "US"@[0]);
                reveal_strlit("HK");
                assert("CN"@[0] != "HK"@[0]);
            },
            Market::Sg => {
                reveal_strlit("SG");
                reveal_strlit("ALL");
                assert("SG"@.len() != "ALL"@.len());
                reveal_strlit("US");
                assert("SG"@[0] != "US"@[0]);
                reveal_strlit("HK");
                assert("SG"@[0] != "HK"@[0]);
                reveal_strlit("CN");
                assert("SG"@[0] != "CN"@[0]);
            },
        }
    }
}

/// A security type.
#[derive(Debug, Clone, Copy, PartialEq, Eq, Structural)]
pub enum SecurityType {
    /// `ALL`
    All,
    /// `STK`
    Stk,
    /// `OPT`
    Opt,
    /// `WAR`
    War,
    /// `IOPT`
    Iopt,
    /// `FUT`
    Fut,
    /// `FOP`
    Fop,
    /// `CASH`
    Cash,
    /// `MLEG`
    Mleg,
    /// `FUND`
    Fund,
}

impl SecurityType {
    /// The name this value has on the wire.
    pub open spec fn wire(self) -> Seq<char> {
        match self {
            SecurityType::All => "ALL"@,
            SecurityType::Stk => "STK"@,
            SecurityType::Opt => "OPT"@,
            SecurityType::War => "WAR"@,
            SecurityType::Iopt => "IOPT"@,
            SecurityType::Fut => "FUT"@,
            SecurityType::Fop => "FOP"@,
            SecurityType::Cash => "CASH"@,
            SecurityType::Mleg => "MLEG"@,
            SecurityType::Fund => "FUND"@,
        }
    }

    /// The value whose wire name is `s`, if any.
    pub open spec fn from_wire_spec(s: Seq<char>) -> Option<SecurityType> {
        if s == "ALL"@ {
            Some(SecurityType::All)
        } else if s == "STK"@ {
            Some(SecurityType::Stk)
        } else if s == "OPT"@ {
            Some(SecurityType::Opt)
        } else if s == "WAR"@ {
            Some(SecurityType::War)
        } else if s == "IOPT"@ {
            Some(SecurityType::Iopt)
        } else if s == "FUT"@ {
            Some(SecurityType::Fut)
        } else if s == "FOP"@ {
            Some(SecurityType::Fop)
        } else if s == "CASH"@ {
            Some(SecurityType::Cash)
        } else if s == "MLEG"@ {
            Some(SecurityType::Mleg)
        } else if s == "FUND"@ {
            Some(SecurityType::Fund)
        } else {
            None
        }
    }

    /// The wire name of `self`.
    pub fn as_str(&self) -> (s: &'static str)
        ensures
            s@ == self.wire(),
    {
        match self {
            SecurityType::All => "ALL",
            SecurityType::Stk => "STK",
            SecurityType::Opt => "OPT",
            SecurityType::War => "WAR",
            SecurityType::Iopt => "IOPT",
            SecurityType::Fut => "FUT",
            SecurityType::Fop => "FOP",
            SecurityType::Cash => "CASH",
            SecurityType::Mleg => "MLEG",
            SecurityType::Fund => "FUND",
        }
    }

    /// The value whose wire name is `s`, if any.
    pub fn from_wire(s: &str) -> (r: Option<SecurityType>)
        ensures
            r == SecurityType::from_wire_spec(s@),
    {
        if str_eq(s, "ALL") {
            Some(SecurityType::All)
        } else if str_eq(s, "STK") {
            Some(SecurityType::Stk)
        } else if str_eq(s, "OPT") {
            Some(SecurityType::Opt)
        } else if str_eq(s, "WAR") {
            Some(SecurityType::War)
        } else if str_eq(s, "IOPT") {
            Some(SecurityType::Iopt)
        } else if str_eq(s, "FUT") {
            Some(SecurityType::Fut)
        } else if str_eq(s, "FOP") {
            Some(SecurityType::Fop)
        } else if str_eq(s, "CASH") {
            Some(SecurityType::Cash)
        } else if str_eq(s, "MLEG") {
            Some(SecurityType::Mleg)
        } else if str_eq(s, "FUND") {
            Some(SecurityType::Fund)
        } else {
            None
        }
    }

    /// Reading back a wire name gives the value it was written from.
    pub proof fn law_wire_roundtrip(self)
        ensures
            SecurityType::from_wire_spec(self.wire()) == Some(self),
    {
        match self {
            SecurityType::All => {
                reveal_strlit("ALL");
            },
            SecurityType::Stk => {
                reveal_strlit("STK");
                reveal_strlit("ALL");
                assert("STK"@[0] != "ALL"@[0]);
            },
            SecurityType::Opt => {
                reveal_strlit("OPT");
                reveal_strlit("ALL");
                assert("OPT"@[0] != "ALL"@[0]);
                reveal_strlit("STK");
                assert("OPT"@[0] != "STK"@[0]);
            },
            SecurityType::War => {
                reveal_strlit("WAR");
                reveal_strlit("ALL");
                assert("WAR"@[0] != "ALL"@[0]);
                reveal_strlit("STK");
                assert("WAR"@[0] != "STK"@[0]);
                reveal_strlit("OPT");
                assert("WAR"@[0] != "OPT"@[0]);
            },
            SecurityType::Iopt => {
                reveal_strlit("IOPT");
                reveal_strlit("ALL");
                assert("IOPT"@.len() != "ALL"@.len());
                reveal_strlit("STK");
                assert("IOPT"@.len() != "STK"@.len());
                reveal_strlit("OPT");
                assert("IOPT"@.len() != "OPT"@.len());
                reveal_strlit("WAR");
                assert("IOPT"@.len() != "WAR"@.len());
            },
            SecurityType::Fut => {
                reveal_strlit("FUT");
                reveal_strlit("ALL");
                assert("FUT"@[0] != "ALL"@[0]);
                reveal_strlit("STK");
                assert("FUT"@[0] != "STK"@[0]);
                reveal_strlit("OPT");
                assert("FUT"@[0] != "OPT"@[0]);
                reveal_strlit("WAR");
                assert("FUT"@[0] != "WAR"@[0]);
                reveal_strlit("IOPT");
                assert("FUT"@.len() != "IOPT"@.len());
            },
            SecurityType::Fop => {
                reveal_strlit("FOP");
                reveal_strlit("ALL");
                assert("FOP"@[0] != "ALL"@[0]);
                reveal_strlit("STK");
                assert("FOP"@[0] != "STK"@[0]);
                reveal_strlit("OPT");
                assert("FOP"@[0] != "OPT"@[0]);
                reveal_strlit("WAR");
                assert("FOP"@[0] != "WAR"@[0]);
                reveal_strlit("IOPT");
                assert("FOP"@.len() != "IOPT"@.len());
                reveal_strlit("FUT");
                assert("FOP"@[1] != "FUT"@[1]);
            },
            SecurityType::Cash => {
                reveal_strlit("CASH");
                reveal_strlit("ALL");
                assert("CASH"@.len() != "ALL"@.len());
                reveal_strlit("STK");
                assert("CASH"@.len() != "STK"@.len());
                reveal_strlit("OPT");
                assert("CASH"@.len() != "OPT"@.len());
                reveal_strlit("WAR");
                assert("CASH"@.len() != "WAR"@.len());
                reveal_strlit("IOPT");
                assert("CASH"@[0] != "IOPT"@[0]);
                reveal_strlit("FUT");
                assert("CASH"@.len() != "FUT"@.len());
                reveal_strlit("FOP");
                assert("CASH"@.len() != "FOP"@.len());
            },
            SecurityType::Mleg => {
                reveal_strlit("MLEG");
                reveal_strlit("ALL");
                assert("MLEG"@.len() != "ALL"@.len());
                reveal_strlit("STK");
                assert("MLEG"@.len() != "STK"@.len());
                reveal_strlit("OPT");
                assert("MLEG"@.len() != "OPT"@.len());
                reveal_strlit("WAR");
                assert("MLEG"@.len() != "WAR"@.len());
                reveal_strlit("IOPT");
                assert("MLEG"@[0] != "IOPT"@[0]);
                reveal_strlit("FUT");
                assert("MLEG"@.len() != "FUT"@.len());
                reveal_strlit("FOP");
                assert("MLEG"@.len() != "FOP"@.len());
                reveal_strlit("CASH");
                assert("MLEG"@[0] != "CASH"@[0]);
            },
            SecurityType::Fund => {
                reveal_strlit("FUND");
                reveal_strlit("ALL");
                assert("FUND"@.len() != "ALL"@.len());
                reveal_strlit("STK");
                assert("FUND"@.len() != "STK"@.len());
                reveal_strlit("OPT");
                assert("FUND"@.len() != "OPT"@.len());
                reveal_strlit("WAR");
                assert("FUND"@.len() != "WAR"@.len());
                reveal_strlit("IOPT");
                assert("FUND"@[0] != "IOPT"@[0]);
                reveal_strlit("FUT");
                assert("FUND"@.len() != "FUT"@.len());
                reveal_strlit("FOP");
                assert("FUND"@.len() != "FOP"@.len());
                reveal_strlit("CASH");
                assert("FUND"@[0] != "CASH"@[0]);
                reveal_strlit("MLEG");
                assert("FUND"@[0] != "MLEG"@[0]);
            },
        }
    }
}

/// A currency.
#[derive(Debug, Clone, Copy, PartialEq, Eq, Structural)]
pub enum Currency {
    /// `ALL`
    All,
    /// `USD`
    Usd,
    /// `HKD`
    Hkd,
    /// `CNH`
    Cnh,
    /// `SGD`
    Sgd,
}

impl Currency {
    /// The name this value has on the wire.
    pub open spec fn wire(self) -> Seq<char> {
        match self {
            Currency::All => "ALL"@,
            Currency::Usd => "USD"@,
            Currency::Hkd => "HKD"@,
            Currency::Cnh => "CNH"@,
            Currency::Sgd => "SGD"@,
        }
    }

    /// The value whose wire name is `s`, if any.
    pub open spec fn from_wire_spec(s: Seq<char>) -> Option<Currency> {
        if s == "ALL"@ {
            Some(Currency::All)
        } else if s == "USD"@ {
            Some(Currency::Usd)
        } else if s == "HKD"@ {
            Some(Currency::Hkd)
        } else if s == "CNH"@ {
            Some(Currency::Cnh)
        } else if s == "SGD"@ {
            Some(Currency::Sgd)
        } else {
            None
        }
    }

    /// The wire name of `self`.
    pub fn as_str(&self) -> (s: &'static str)
        ensures
            s@ == self.wire(),
    {
        match self {
            Currency::All => "ALL",
            Currency::Usd => "USD",
            Currency::Hkd => "HKD",
            Currency::Cnh => "CNH",
            Currency::Sgd => "SGD",
        }
    }

    /// The value whose wire name is `s`, if any.
    pub fn from_wire(s: &str) -> (r: Option<Currency>)
        ensures
            r == Currency::from_wire_spec(s@),
    {
        if str_eq(s, "ALL") {
            Some(Currency::All)
        } else if str_eq(s, "USD") {
            Some(Currency::Usd)
        } else if str_eq(s, "HKD") {
            Some(Currency::Hkd)
        } else if str_eq(s, "CNH") {
            Some(Currency::Cnh)
        } else if str_eq(s, "SGD") {
            Some(Currency::Sgd)
        } else {
            None
        }
    }

    /// Reading back a wire name gives the value it was written from.
    pub proof fn law_wire_roundtrip(self)
        ensures
            Currency::from_wire_spec(self.wire()) == Some(self),
    {
        match self {
            Currency::All => {
                reveal_strlit("ALL");
            },
            Currency::Usd => {
                reveal_strlit("USD");
                reveal_strlit("ALL");
                assert("USD"@[0] != "ALL"@[0]);
            },
            Currency::Hkd => {
                reveal_strlit("HKD");
                reveal_strlit("ALL");
                assert("HKD"@[0] != "ALL"@[0]);
                reveal_strlit("USD");
                assert("HKD"@[0] != "USD"@[0]);
            },
            Currency::Cnh => {
                reveal_strlit("CNH");
                reveal_strlit("ALL");
                assert("CNH"@[0] != "ALL"@[0]);
                reveal_strlit("USD");
                assert("CNH"@[0] != "USD"@[0]);
                reveal_strlit("HKD");
                assert("CNH"@[0] != "HKD"@[0]);
            },
            Currency::Sgd => {
                reveal_strlit("SGD");
                reveal_strlit("ALL");
                assert("SGD"@[0] != "ALL"@[0]);
                reveal_strlit("USD");
                assert("SGD"@[0] != "USD"@[0]);
                reveal_strlit("HKD");
                assert("SGD"@[0] != "HKD"@[0]);
                reveal_strlit("CNH");
                assert("SGD"@[0] != "CNH"@[0]);
            },
        }
    }
}

/// An order type.
#[derive(Debug, Clone, Copy, PartialEq, Eq, Structural)]
pub enum OrderType {
    /// `MKT`
    Mkt,
    /// `LMT`
    Lmt,
    /// `STP`
    Stp,
    /// `STP_LMT`
    StpLmt,
    /// `TRAIL`
    Trail,
    /// `AM`
    Am,
    /// `AL`
    Al,
    /// `TWAP`
    Twap,
    /// `VWAP`
    Vwap,
    /// `OCA`
    Oca,
}

impl OrderType {
    /// The name this value has on the wire.
    pub open spec fn wire(self) -> Seq<char> {
        match self {
            OrderType::Mkt => "MKT"@,
            OrderType::Lmt => "LMT"@,
            OrderType::Stp => "STP"@,
            OrderType::StpLmt => "STP_LMT"@,
            OrderType::Trail => "TRAIL"@,
            OrderType::Am => "AM"@,
            OrderType::Al => "AL"@,
            OrderType::Twap => "TWAP"@,
            OrderType::Vwap => "VWAP"@,
            OrderType::Oca => "OCA"@,
        }
    }

    /// The value whose wire name is `s`, if any.
    pub open spec fn from_wire_spec(s: Seq<char>) -> Option<OrderType> {
        if s == "MKT"@ {
            Some(OrderType::Mkt)
        } else if s == "LMT"@ {
            Some(OrderType::Lmt)
        } else if s == "STP"@ {
            Some(OrderType::Stp)
        } else if s == "STP_LMT"@ {
            Some(OrderType::StpLmt)
        } else if s == "TRAIL"@ {
            Some(OrderType::Trail)
        } else if s == "AM"@ {
            Some(OrderType::Am)
        } else if s == "AL"@ {
            Some(OrderType::Al)
        } else if s == "TWAP"@ {
            Some(OrderType::Twap)
        } else if s == "VWAP"@ {
            Some(OrderType::Vwap)
        } else if s == "OCA"@ {
            Some(OrderType::Oca)
        } else {
            None
        }
    }

    /// The wire name of `self`.
    pub fn as_str(&self) -> (s: &'static str)
        ensures
            s@ == self.wire(),
    {
        match self {
            OrderType::Mkt => "MKT",
            OrderType::Lmt => "LMT",
            OrderType::Stp => "STP",
            OrderType::StpLmt => "STP_LMT",
            OrderType::Trail => "TRAIL",
            OrderType::Am => "AM",
            OrderType::Al => "AL",
            OrderType::Twap => "TWAP",
            OrderType::Vwap => "VWAP",
            OrderType::Oca => "OCA",
        }
    }

    /// The value whose wire name is `s`, if any.
    pub fn from_wire(s: &str) -> (r: Option<OrderType>)
        ensures
            r == OrderType::from_wire_spec(s@),
    {
        if str_eq(s, "MKT") {
            Some(OrderType::Mkt)
        } else if str_eq(s, "LMT") {
            Some(OrderType::Lmt)
        } else if str_eq(s, "STP") {
            Some(OrderType::Stp)
        } else if str_eq(s, "STP_LMT") {
            Some(OrderType::StpLmt)
        } else if str_eq(s, "TRAIL") {
            Some(OrderType::Trail)
        } else if str_eq(s, "AM") {
            Some(OrderType::Am)
        } else if str_eq(s, "AL") {
            Some(OrderType::Al)
        } else if str_eq(s, "TWAP") {
            Some(OrderType::Twap)
        } else if str_eq(s, "VWAP") {
            Some(OrderType::Vwap)
        } else if str_eq(s, "OCA") {
            Some(OrderType::Oca)
        } else {
            None
        }
    }

    /// Reading back a wire name gives the value it was written from.
    pub proof fn law_wire_roundtrip(self)
        ensures
            OrderType::from_wire_spec(self.wire()) == Some(self),
    {
        match self {
            OrderType::Mkt => {
                reveal_strlit("MKT");
            },
            OrderType::Lmt => {
                reveal_strlit("LMT");
                reveal_strlit("MKT");
                assert("LMT"@[0] != "MKT"@[0]);
            },
            OrderType::Stp => {
                reveal_strlit("STP");
                reveal_strlit("MKT");
                assert("STP"@[0] != "MKT"@[0]);
                reveal_strlit("LMT");
                assert("STP"@[0] != "LMT"@[0]);
            },
            OrderType::StpLmt => {
                reveal_strlit("STP_LMT");
                reveal_strlit("MKT");
                assert("STP_LMT"@.len() != "MKT"@.len());
                reveal_strlit("LMT");
                assert("STP_LMT"@.len() != "LMT"@.len());
                reveal_strlit("STP");
                assert("STP_LMT"@.len() != "STP"@.len());
            },
            OrderType::Trail => {
                reveal_strlit("TRAIL");
                reveal_strlit("MKT");
                assert("TRAIL"@.len() != "MKT"@.len());
                reveal_strlit("LMT");
                assert("TRAIL"@.len() != "LMT"@.len());
                reveal_strlit("STP");
                assert("TRAIL"@.len() != "STP"@.len());
                reveal_strlit("STP_LMT");
                assert("TRAIL"@.len() != "STP_LMT"@.len());
            },
            OrderType::Am => {
                reveal_strlit("AM");
                reveal_strlit("MKT");
                assert("AM"@.len() != "MKT"@.len());
                reveal_strlit("LMT");
                assert("AM"@.len() != "LMT"@.len());
                reveal_strlit("STP");
                assert("AM"@.len() != "STP"@.len());
                reveal_strlit("STP_LMT");
                assert("AM"@.len() != "STP_LMT"@.len());
                reveal_strlit("TRAIL");
                assert("AM"@.len() != "TRAIL"@.len());
            },
            OrderType::Al => {
                reveal_strlit("AL");
                reveal_strlit("MKT");
                assert("AL"@.len() != "MKT"@.len());
                reveal_strlit("LMT");
                assert("AL"@.len() != "LMT"@.len());
                reveal_strlit("STP");
                assert("AL"@.len() != "STP"@.len());
                reveal_strlit("STP_LMT");
                assert("AL"@.len() != "STP_LMT"@.len());
                reveal_strlit("TRAIL");
                assert("AL"@.len() != "TRAIL"@.len());
                reveal_strlit("AM");
                assert("AL"@[1] != "AM"@[1]);
            },
            OrderType::Twap => {
                reveal_strlit("TWAP");
                reveal_strlit("MKT");
                assert("TWAP"@.len() != "MKT"@.len());
                reveal_strlit("LMT");
                assert("TWAP"@.len() != "LMT"@.len());
                reveal_strlit("STP");
                assert("TWAP"@.len() != "STP"@.len());
                reveal_strlit("STP_LMT");
                assert("TWAP"@.len() != "STP_LMT"@.len());
                reveal_strlit("TRAIL");
                assert("TWAP"@.len() != "TRAIL"@.len());
                reveal_strlit("AM");
                assert("TWAP"@.len() != "AM"@.len());
                reveal_strlit("AL");
                assert("TWAP"@.len() != "AL"@.len());
            },
            OrderType::Vwap => {
                reveal_strlit("VWAP");
                reveal_strlit("MKT");
                assert("VWAP"@.len() != "MKT"@.len());
                reveal_strlit("LMT");
                assert("VWAP"@.len() != "LMT"@.len());
                reveal_strlit("STP");
                assert("VWAP"@.len() != "STP"@.len());
                reveal_strlit("STP_LMT");
                assert("VWAP"@.len() != "STP_LMT"@.len());
                reveal_strlit("TRAIL");
                assert("VWAP"@.len() != "TRAIL"@.len());
                reveal_strlit("AM");
                assert("VWAP"@.len() != "AM"@.len());
                reveal_strlit("AL");
                assert("VWAP"@.len() != "AL"@.len());
                reveal_strlit("TWAP");
                assert("VWAP"@[0] != "TWAP"@[0]);
            },
            OrderType::Oca => {
                reveal_strlit("OCA");
                reveal_strlit("MKT");
                assert("OCA"@[0] != "MKT"@[0]);
                reveal_strlit("LMT");
                assert("OCA"@[0] != "LMT"@[0]);
                reveal_strlit("STP");
                assert("OCA"@[0] != "STP"@[0]);
                reveal_strlit("STP_LMT");
                assert("OCA"@.len() != "STP_LMT"@.len());
                reveal_strlit("TRAIL");
                assert("OCA"@.len() != "TRAIL"@.len());
                reveal_strlit("AM");
                assert("OCA"@.len() != "AM"@.len());
                reveal_strlit("AL");
                assert("OCA"@.len() != "AL"@.len());
                reveal_strlit("TWAP");
                assert("OCA"@.len() != "TWAP"@.len());
                reveal_strlit("VWAP");
                assert("OCA"@.len() != "VWAP"@.len());
            },
        }
    }
}

/// The status of an order.
#[derive(Debug, Clone, Copy, PartialEq, Eq, Structural)]
pub enum OrderStatus {
    /// `Invalid`
    Invalid,
    /// `Initial`
    Initial,
    /// `PendingCancel`
    PendingCancel,
    /// `Cancelled`
    Cancelled,
    /// `Submitted`
    Submitted,
    /// `Filled`
    Filled,
    /// `Inactive`
    Inactive,
    /// `PendingSubmit`
    PendingSubmit,
}

impl OrderStatus {
    /// The name this value has on the wire.
    pub open spec fn wire(self) -> Seq<char> {
        match self {
            OrderStatus::Invalid => "Invalid"@,
            OrderStatus::Initial => "Initial"@,
            OrderStatus::PendingCancel => "PendingCancel"@,
            OrderStatus::Cancelled => "Cancelled"@,
            OrderStatus::Submitted => "Submitted"@,
            OrderStatus::Filled => "Filled"@,
            OrderStatus::Inactive => "Inactive"@,
            OrderStatus::PendingSubmit => "PendingSubmit"@,
        }
    }

    /// The value whose wire name is `s`, if any.
    pub open spec fn from_wire_spec(s: Seq<char>) -> Option<OrderStatus> {
        if s == "Invalid"@ {
            Some(OrderStatus::Invalid)
        } else if s == "Initial"@ {
            Some(OrderStatus::Initial)
        } else if s == "PendingCancel"@ {
            Some(OrderStatus::PendingCancel)
        } else if s == "Cancelled"@ {
            Some(OrderStatus::Cancelled)
        } else if s == "Submitted"@ {
            Some(OrderStatus::Submitted)
        } else if s == "Filled"@ {
            Some(OrderStatus::Filled)
        } else if s == "Inactive"@ {
            Some(OrderStatus::Inactive)
        } else if s == "PendingSubmit"@ {
            Some(OrderStatus::PendingSubmit)
        } else {
            None
        }
    }

    /// The wire name of `self`.
    pub fn as_str(&self) -> (s: &'static str)
        ensures
            s@ == self.wire(),
    {
        match self {
            OrderStatus::Invalid => "Invalid",
            OrderStatus::Initial => "Initial",
            OrderStatus::PendingCancel => "PendingCancel",
            OrderStatus::Cancelled => "Cancelled",
            OrderStatus::Submitted => "Submitted",
            OrderStatus::Filled => "Filled",
            OrderStatus::Inactive => "Inactive",
            OrderStatus::PendingSubmit => "PendingSubmit",
        }
    }

    /// The value whose wire name is `s`, if any.
    pub fn from_wire(s: &str) -> (r: Option<OrderStatus>)
        ensures
            r == OrderStatus::from_wire_spec(s@),
    {
        if str_eq(s, "Invalid") {
            Some(OrderStatus::Invalid)
        } else if str_eq(s, "Initial") {
            Some(OrderStatus::Initial)
        } else if str_eq(s, "PendingCancel") {
            Some(OrderStatus::PendingCancel)
        } else if str_eq(s, "Cancelled") {
            Some(OrderStatus::Cancelled)
        } else if str_eq(s, "Submitted") {
            Some(OrderStatus::Submitted)
        } else if str_eq(s, "Filled") {
            Some(OrderStatus::Filled)
        } else if str_eq(s, "Inactive") {
            Some(OrderStatus::Inactive)
        } else if str_eq(s, "PendingSubmit") {
            Some(OrderStatus::PendingSubmit)
        } else {
            None
        }
    }

    /// Reading back a wire name gives the value it was written from.
    pub proof fn law_wire_roundtrip(self)
        ensures
            OrderStatus::from_wire_spec(self.wire()) == Some(self),
    {
        match self {
            OrderStatus::Invalid => {
                reveal_strlit("Invalid");
            },
            OrderStatus::Initial => {
                reveal_strlit("Initial");
                reveal_strlit("Invalid");
                assert("Initial"@[2] != "Invalid"@[2]);
            },
            OrderStatus::PendingCancel => {
                reveal_strlit("PendingCancel");
                reveal_strlit("Invalid");
                assert("PendingCancel"@.len() != "Invalid"@.len());
                reveal_strlit("Initial");
                assert("PendingCancel"@.len() != "Initial"@.len());
            },
            OrderStatus::Cancelled => {
                reveal_strlit("Cancelled");
                reveal_strlit("Invalid");
                assert("Cancelled"@.len() != "Invalid"@.len());
                reveal_strlit("Initial");
                assert("Cancelled"@.len() != "Initial"@.len());
                reveal_strlit("PendingCancel");
                assert("Cancelled"@.len() != "PendingCancel"@.len());
            },
            OrderStatus::Submitted => {
                reveal_strlit("Submitted");
                reveal_strlit("Invalid");
                assert("Submitted"@.len() != "Invalid"@.len());
                reveal_strlit("Initial");
                assert("Submitted"@.len() != "Initial"@.len());
                reveal_strlit("PendingCancel");
                assert("Submitted"@.len() != "PendingCancel"@.len());
                reveal_strlit("Cancelled");
                assert("Submitted"@[0] != "Cancelled"@[0]);
            },
            OrderStatus::Filled => {
                reveal_strlit("Filled");
                reveal_strlit("Invalid");
                assert("Filled"@.len() != "Invalid"@.len());
                reveal_strlit("Initial");
                assert("Filled"@.len() != "Initial"@.len());
                reveal_strlit("PendingCancel");
                assert("Filled"@.len() != "PendingCancel"@.len());
                reveal_strlit("Cancelled");
                assert("Filled"@.len() != "Cancelled"@.len());
                reveal_strlit("Submitted");
                assert("Filled"@.len() != "Submitted"@.len());
            },
            OrderStatus::Inactive => {
                reveal_strlit("Inactive");
                reveal_strlit("Invalid");
                assert("Inactive"@.len() != "Invalid"@.len());
                reveal_strlit("Initial");
                assert("Inactive"@.len() != "Initial"@.len());
                reveal_strlit("PendingCancel");
                assert("Inactive"@.len() != "PendingCancel"@.len());
                reveal_strlit("Cancelled");
                assert("Inactive"@.len() != "Cancelled"@.len());
                reveal_strlit("Submitted");
                assert("Inactive"@.len() != "Submitted"@.len());
                reveal_strlit("Filled");
                assert("Inactive"@.len() != "Filled"@.len());
            },
            OrderStatus::PendingSubmit => {
                reveal_strlit("PendingSubmit");
                reveal_strlit("Invalid");
                assert("PendingSubmit"@.len() != "Invalid"@.len());
                reveal_strlit("Initial");
                assert("PendingSubmit"@.len() != "Initial"@.len());
                reveal_strlit("PendingCancel");
                assert("PendingSubmit"@[7] != "PendingCancel"@[7]);
                reveal_strlit("Cancelled");
                assert("PendingSubmit"@.len() != "Cancelled"@.len());
                reveal_strlit("Submitted");
                assert("PendingSubmit"@.len() != "Submitted"@.len());
                reveal_strlit("Filled");
                assert("PendingSubmit"@.len() != "Filled"@.len());
                reveal_strlit("Inactive");
                assert("PendingSubmit"@.len() != "Inactive"@.len());
            },
        }
    }
}

/// A candlestick (K-line) period.
#[derive(Debug, Clone, Copy, PartialEq, Eq, Structural)]
pub enum BarPeriod {
    /// `day`
    Day,
    /// `week`
    Week,
    /// `month`
    Month,
    /// `year`
    Year,
    /// `1min`
    Min1,
    /// `5min`
    Min5,
    /// `15min`
    Min15,
    /// `30min`
    Min30,
    /// `60min`
    Min60,
}

impl BarPeriod {
    /// The name this value has on the wire.
    pub open spec fn wire(self) -> Seq<char> {
        match self {
            BarPeriod::Day => "day"@,
            BarPeriod::Week => "week"@,
            BarPeriod::Month => "month"@,
            BarPeriod::Year => "year"@,
            BarPeriod::Min1 => "1min"@,
            BarPeriod::Min5 => "5min"@,
            BarPeriod::Min15 => "15min"@,
            BarPeriod::Min30 => "30min"@,
            BarPeriod::Min60 => "60min"@,
        }
    }

    /// The value whose wire name is `s`, if any.
    pub open spec fn from_wire_spec(s: Seq<char>) -> Option<BarPeriod> {
        if s == "day"@ {
            Some(BarPeriod::Day)
        } else if s == "week"@ {
            Some(BarPeriod::Week)
        } else if s == "month"@ {
            Some(BarPeriod::Month)
        } else if s == "year"@ {
            Some(BarPeriod::Year)
        } else if s == "1min"@ {
            Some(BarPeriod::Min1)
        } else if s == "5min"@ {
            Some(BarPeriod::Min5)
        } else if s == "15min"@ {
            Some(BarPeriod::Min15)
        } else if s == "30min"@ {
            Some(BarPeriod::Min30)
        } else if s == "60min"@ {
            Some(BarPeriod::Min60)
        } else {
            None
        }
    }

    /// The wire name of `self`.
    pub fn as_str(&self) -> (s: &'static str)
        ensures
            s@ == self.wire(),
    {
        match self {
            BarPeriod::Day => "day",
            BarPeriod::Week => "week",
            BarPeriod::Month => "month",
            BarPeriod::Year => "year",
            BarPeriod::Min1 => "1min",
            BarPeriod::Min5 => "5min",
            BarPeriod::Min15 => "15min",
            BarPeriod::Min30 => "30min",
            BarPeriod::Min60 => "60min",
        }
    }

    /// The value whose wire name is `s`, if any.
    pub fn from_wire(s: &str) -> (r: Option<BarPeriod>)
        ensures
            r == BarPeriod::from_wire_spec(s@),
    {
        if str_eq(s, "day") {
            Some(BarPeriod::Day)
        } else if str_eq(s, "week") {
            Some(BarPeriod::Week)
        } else if str_eq(s, "month") {
            Some(BarPeriod::Month)
        } else if str_eq(s, "year") {
            Some(BarPeriod::Year)
        } else if str_eq(s, "1min") {
            Some(BarPeriod::Min1)
        } else if str_eq(s, "5min") {
            Some(BarPeriod::Min5)
        } else if str_eq(s, "15min") {
            Some(BarPeriod::Min15)
        } else if str_eq(s, "30min") {
            Some(BarPeriod::Min30)
        } else if str_eq(s, "60min") {
            Some(BarPeriod::Min60)
        } else {
            None
        }
    }

    /// Reading back a wire name gives the value it was written from.
    pub proof fn law_wire_roundtrip(self)
        ensures
            BarPeriod::from_wire_spec(self.wire()) == Some(self),
    {
        match self {
            BarPeriod::Day => {
                reveal_strlit("day");
            },
            BarPeriod::Week => {
                reveal_strlit("week");
                reveal_strlit("day");
                assert("week"@.len() != "day"@.len());
            },
            BarPeriod::Month => {
                reveal_strlit("month");
                reveal_strlit("day");
                assert("month"@.len() != "day"@.len());
                reveal_strlit("week");
                assert("month"@.len() != "week"@.len());
            },
            BarPeriod::Year => {
                reveal_strlit("year");
                reveal_strlit("day");
                assert("year"@.len() != "day"@.len());
                reveal_strlit("week");
                assert("year"@[0] != "week"@[0]);
                reveal_strlit("month");
                assert("year"@.len() != "month"@.len());
            },
            BarPeriod::Min1 => {
                reveal_strlit("1min");
                reveal_strlit("day");
                assert("1min"@.len() != "day"@.len());
                reveal_strlit("week");
                assert("1min"@[0] != "week"@[0]);
                reveal_strlit("month");
                assert("1min"@.len() != "month"@.len());
                reveal_strlit("year");
                assert("1min"@[0] != "year"@[0]);
            },
            BarPeriod::Min5 => {
                reveal_strlit("5min");
                reveal_strlit("day");
                assert("5min"@.len() != "day"@.len());
                reveal_strlit("week");
                assert("5min"@[0] != "week"@[0]);
                reveal_strlit("month");
                assert("5min"@.len() != "month"@.len());
                reveal_strlit("year");
                assert("5min"@[0] != "year"@[0]);
                reveal_strlit("1min");
                assert("5min"@[0] != "1min"@[0]);
            },
            BarPeriod::Min15 => {
                reveal_strlit("15min");
                reveal_strlit("day");
                assert("15min"@.len() != "day"@.len());
                reveal_strlit("week");
                assert("15min"@.len() != "week"@.len());
                reveal_strlit("month");
                assert("15min"@[0] != "month"@[0]);
                reveal_strlit("year");
                assert("15min"@.len() != "year"@.len());
                reveal_strlit("1min");
                assert("15min"@.len() != "1min"@.len());
                reveal_strlit("5min");
                assert("15min"@.len() != "5min"@.len());
            },
            BarPeriod::Min30 => {
                reveal_strlit("30min");
                reveal_strlit("day");
                assert("30min"@.len() != "day"@.len());
                reveal_strlit("week");
                assert("30min"@.len() != "week"@.len());
                reveal_strlit("month");
                assert("30min"@[0] != "month"@[0]);
                reveal_strlit("year");
                assert("30min"@.len() != "year"@.len());
                reveal_strlit("1min");
                assert("30min"@.len() != "1min"@.len());
                reveal_strlit("5min");
                assert("30min"@.len() != "5min"@.len());
                reveal_strlit("15min");
                assert("30min"@[0] != "15min"@[0]);
            },
            BarPeriod::Min60 => {
                reveal_strlit("60min");
                reveal_strlit("day");
                assert("60min"@.len() != "day"@.len());
                reveal_strlit("week");
                assert("60min"@.len() != "week"@.len());
                reveal_strlit("month");
                assert("60min"@[0] != "month"@[0]);
                reveal_strlit("year");
                assert("60min"@.len() != "year"@.len());
                reveal_strlit("1min");
                assert("60min"@.len() != "1min"@.len());
                reveal_strlit("5min");
                assert("60min"@.len() != "5min"@.len());
                reveal_strlit("15min");
                assert("60min"@[0] != "15min"@[0]);
                reveal_strlit("30min");
                assert("60min"@[0] != "30min"@[0]);
            },
        }
    }
}

/// A response language.
#[derive(Debug, Clone, Copy, PartialEq, Eq, Structural)]
pub enum Language {
    /// `zh_CN`
    ZhCn,
    /// `zh_TW`
    ZhTw,
    /// `en_US`
    EnUs,
}

impl Language {
    /// The name this value has on the wire.
    pub open spec fn wire(self) -> Seq<char> {
        match self {
            Language::ZhCn => "zh_CN"@,
            Language::ZhTw => "zh_TW"@,
            Language::EnUs => "en_US"@,
        }
    }

    /// The value whose wire name is `s`, if any.
    pub open spec fn from_wire_spec(s: Seq<char>) -> Option<Language> {
        if s == "zh_CN"@ {
            Some(Language::ZhCn)
        } else if s == "zh_TW"@ {
            Some(Language::ZhTw)
        } else if s == "en_US"@ {
            Some(Language::EnUs)
        } else {
            None
        }
    }

    /// The wire name of `self`.
    pub fn as_str(&self) -> (s: &'static str)
        ensures
            s@ == self.wire(),
    {
        match self {
            Language::ZhCn => "zh_CN",
            Language::ZhTw => "zh_TW",
            Language::EnUs => "en_US",
        }
    }

    /// The value whose wire name is `s`, if any.
    pub fn from_wire(s: &str) -> (r: Option<Language>)
        ensures
            r == Language::from_wire_spec(s@),
    {
        if str_eq(s, "zh_CN") {
            Some(Language::ZhCn)
        } else if str_eq(s, "zh_TW") {
            Some(Language::ZhTw)
        } else if str_eq(s, "en_US") {
            Some(Language::EnUs)
        } else {
            None
        }
    }

    /// Reading back a wire name gives the value it was written from.
    pub proof fn law_wire_roundtrip(self)
        ensures
            Language::from_wire_spec(self.wire()) == Some(self),
    {
        match self {
            Language::ZhCn => {
                reveal_strlit("zh_CN");
            },
            Language::ZhTw => {
                reveal_strlit("zh_TW");
                reveal_strlit("zh_CN");
                assert("zh_TW"@[3] != "zh_CN"@[3]);
            },
            Language::EnUs => {
                reveal_strlit("en_US");
                reveal_strlit("zh_CN");
                assert("en_US"@[0] != "zh_CN"@[0]);
                reveal_strlit("zh_TW");
                assert("en_US"@[0] != "zh_TW"@[0]);
            },
        }
    }
}

/// A price adjustment: forward-adjusted (`br`) or unadjusted (`nr`).
#[derive(Debug, Clone, Copy, PartialEq, Eq, Structural)]
pub enum QuoteRight {
    /// `br`
    Br,
    /// `nr`
    Nr,
}

impl QuoteRight {
    /// The name this value has on the wire.
    pub open spec fn wire(self) -> Seq<char> {
        match self {
            QuoteRight::Br => "br"@,
            QuoteRight::Nr => "nr"@,
        }
    }

    /// The value whose wire name is `s`, if any.
    pub open spec fn from_wire_spec(s: Seq<char>) -> Option<QuoteRight> {
        if s == "br"@ {
            Some(QuoteRight::Br)
        } else if s == "nr"@ {
            Some(QuoteRight::Nr)
        } else {
            None
        }
    }

    /// The wire name of `self`.
    pub fn as_str(&self) -> (s: &'static str)
        ensures
            s@ == self.wire(),
    {
        match self {
            QuoteRight::Br => "br",
            QuoteRight::Nr => "nr",
        }
    }

    /// The value whose wire name is `s`, if any.
    pub fn from_wire(s: &str) -> (r: Option<QuoteRight>)
        ensures
            r == QuoteRight::from_wire_spec(s@),
    {
        if str_eq(s, "br") {
            Some(QuoteRight::Br)
        } else if str_eq(s, "nr") {
            Some(QuoteRight::Nr)
        } else {
            None
        }
    }

    /// Reading back a wire name gives the value it was written from.
    pub proof fn law_wire_roundtrip(self)
        ensures
            QuoteRight::from_wire_spec(self.wire()) == Some(self),
    {
        match self {
            QuoteRight::Br => {
                reveal_strlit("br");
            },
            QuoteRight::Nr => {
                reveal_strlit("nr");
                reveal_strlit("br");
                assert("nr"@[0] != "br"@[0]);
            },
        }
    }
}

/// A brokerage licence.
#[derive(Debug, Clone, Copy, PartialEq, Eq, Structural)]
pub enum License {
    /// `TBNZ`
    Tbnz,
    /// `TBSG`
    Tbsg,
    /// `TBHK`
    Tbhk,
    /// `TBAU`
    Tbau,
    /// `TBUS`
    Tbus,
    /// `TBMS`
    Tbms,
}

impl License {
    /// The name this value has on the wire.
    pub open spec fn wire(self) -> Seq<char> {
        match self {
            License::Tbnz => "TBNZ"@,
            License::Tbsg => "TBSG"@,
            License::Tbhk => "TBHK"@,
            License::Tbau => "TBAU"@,
            License::Tbus => "TBUS"@,
            License::Tbms => "TBMS"@,
        }
    }

    /// The value whose wire name is `s`, if any.
    pub open spec fn from_wire_spec(s: Seq<char>) -> Option<License> {
        if s == "TBNZ"@ {
            Some(License::Tbnz)
        } else if s == "TBSG"@ {
            Some(License::Tbsg)
        } else if s == "TBHK"@ {
            Some(License::Tbhk)
        } else if s == "TBAU"@ {
            Some(License::Tbau)
        } else if s == "TBUS"@ {
            Some(License::Tbus)
        } else if s == "TBMS"@ {
            Some(License::Tbms)
        } else {
            None
        }
    }

    /// The wire name of `self`.
    pub fn as_str(&self) -> (s: &'static str)
        ensures
            s@ == self.wire(),
    {
        match self {
            License::Tbnz => "TBNZ",
            License::Tbsg => "TBSG",
            License::Tbhk => "TBHK",
            License::Tbau => "TBAU",
            License::Tbus => "TBUS",
            License::Tbms => "TBMS",
        }
    }

    /// The value whose wire name is `s`, if any.
    pub fn from_wire(s: &str) -> (r: Option<License>)
        ensures
            r == License::from_wire_spec(s@),
    {
        if str_eq(s, "TBNZ") {
            Some(License::Tbnz)
        } else if str_eq(s, "TBSG") {
            Some(License::Tbsg)
        } else if str_eq(s, "TBHK") {
            Some(License::Tbhk)
        } else if str_eq(s, "TBAU") {
            Some(License::Tbau)
        } else if str_eq(s, "TBUS") {
            Some(License::Tbus)
        } else if str_eq(s, "TBMS") {
            Some(License::Tbms)
        } else {
            None
        }
    }

    /// Reading back a wire name gives the value it was written from.
    pub proof fn law_wire_roundtrip(self)
        ensures
            License::from_wire_spec(self.wire()) == Some(self),
    {
        match self {
            License::Tbnz => {
                reveal_strlit("TBNZ");
            },
            License::Tbsg => {
                reveal_strlit("TBSG");
                reveal_strlit("TBNZ");
                assert("TBSG"@[2] != "TBNZ"@[2]);
            },
            License::Tbhk => {
                reveal_strlit("TBHK");
                reveal_strlit("TBNZ");
                assert("TBHK"@[2] != "TBNZ"@[2]);
                reveal_strlit("TBSG");
                assert("TBHK"@[2] != "TBSG"@[2]);
            },
            License::Tbau => {
                reveal_strlit("TBAU");
                reveal_strlit("TBNZ");
                assert("TBAU"@[2] != "TBNZ"@[2]);
                reveal_strlit("TBSG");
                assert("TBAU"@[2] != "TBSG"@[2]);
                reveal_strlit("TBHK");
                assert("TBAU"@[2] != "TBHK"@[2]);
            },
            License::Tbus => {
                reveal_strlit("TBUS");
                reveal_strlit("TBNZ");
                assert("TBUS"@[2] != "TBNZ"@[2]);
                reveal_strlit("TBSG");
                assert("TBUS"@[2] != "TBSG"@[2]);
                reveal_strlit("TBHK");
                assert("TBUS"@[2] != "TBHK"@[2]);
                reveal_strlit("TBAU");
                assert("TBUS"@[2] != "TBAU"@[2]);
            },
            License::Tbms => {
                reveal_strlit("TBMS");
                reveal_strlit("TBNZ");
                assert("TBMS"@[2] != "TBNZ"@[2]);
                reveal_strlit("TBSG");
                assert("TBMS"@[2] != "TBSG"@[2]);
                reveal_strlit("TBHK");
                assert("TBMS"@[2] != "TBHK"@[2]);
                reveal_strlit("TBAU");
                assert("TBMS"@[2] != "TBAU"@[2]);
                reveal_strlit("TBUS");
                assert("TBMS"@[2] != "TBUS"@[2]);
            },
        }
    }
}

/// The field orders are sorted by.
#[derive(Debug, Clone, Copy, PartialEq, Eq, Structural)]
pub enum OrderSortBy {
    /// `LATEST_CREATED`
    LatestCreated,
    /// `LATEST_STATUS_UPDATED`
    LatestStatusUpdated,
}

impl OrderSortBy {
    /// The name this value has on the wire.
    pub open spec fn wire(self) -> Seq<char> {
        match self {
            OrderSortBy::LatestCreated => "LATEST_CREATED"@,
            OrderSortBy::LatestStatusUpdated => "LATEST_STATUS_UPDATED"@,
        }
    }

    /// The value whose wire name is `s`, if any.
    pub open spec fn from_wire_spec(s: Seq<char>) -> Option<OrderSortBy> {
        if s == "LATEST_CREATED"@ {
            Some(OrderSortBy::LatestCreated)
        } else if s == "LATEST_STATUS_UPDATED"@ {
            Some(OrderSortBy::LatestStatusUpdated)
        } else {
            None
        }
    }

    /// The wire name of `self`.
    pub fn as_str(&self) -> (s: &'static str)
        ensures
            s@ == self.wire(),
    {
        match self {
            OrderSortBy::LatestCreated => "LATEST_CREATED",
            OrderSortBy::LatestStatusUpdated => "LATEST_STATUS_UPDATED",
        }
    }

    /// The value whose wire name is `s`, if any.
    pub fn from_wire(s: &str) -> (r: Option<OrderSortBy>)
        ensures
            r == OrderSortBy::from_wire_spec(s@),
    {
        if str_eq(s, "LATEST_CREATED") {
            Some(OrderSortBy::LatestCreated)
        } else if str_eq(s, "LATEST_STATUS_UPDATED") {
            Some(OrderSortBy::LatestStatusUpdated)
        } else {
            None
        }
    }

    /// Reading back a wire name gives the value it was written from.
    pub proof fn law_wire_roundtrip(self)
        ensures
            OrderSortBy::from_wire_spec(self.wire()) == Some(self),
    {
        match self {
            OrderSortBy::LatestCreated => {
                reveal_strlit("LATEST_CREATED");
            },
            OrderSortBy::LatestStatusUpdated => {
                reveal_strlit("LATEST_STATUS_UPDATED");
                reveal_strlit("LATEST_CREATED");
                assert("LATEST_STATUS_UPDATED"@.len() != "LATEST_CREATED"@.len());
            },
        }
    }
}

/// An account segment.
#[derive(Debug, Clone, Copy, PartialEq, Eq, Structural)]
pub enum SegmentType {
    /// `ALL`
    All,
    /// `SEC`
    Sec,
    /// `FUT`
    Fut,
    /// `FUND`
    Fund,
}

impl SegmentType {
    /// The name this value has on the wire.
    pub open spec fn wire(self) -> Seq<char> {
        match self {
            SegmentType::All => "ALL"@,
            SegmentType::Sec => "SEC"@,
            SegmentType::Fut => "FUT"@,
            SegmentType::Fund => "FUND"@,
        }
    }

    /// The value whose wire name is `s`, if any.
    pub open spec fn from_wire_spec(s: Seq<char>) -> Option<SegmentType> {
        if s == "ALL"@ {
            Some(SegmentType::All)
        } else if s == "SEC"@ {
            Some(SegmentType::Sec)
        } else if s == "FUT"@ {
            Some(SegmentType::Fut)
        } else if s == "FUND"@ {
            Some(SegmentType::Fund)
        } else {
            None
        }
    }

    /// The wire name of `self`.
    pub fn as_str(&self) -> (s: &'static str)
        ensures
            s@ == self.wire(),
    {
        match self {
            SegmentType::All => "ALL",
            SegmentType::Sec => "SEC",
            SegmentType::Fut => "FUT",
            SegmentType::Fund => "FUND",
        }
    }

    /// The value whose wire name is `s`, if any.
    pub fn from_wire(s: &str) -> (r: Option<SegmentType>)
        ensures
            r == SegmentType::from_wire_spec(s@),
    {
        if str_eq(s, "ALL") {
            Some(SegmentType::All)
        } else if str_eq(s, "SEC") {
            Some(SegmentType::Sec)
        } else if str_eq(s, "FUT") {
            Some(SegmentType::Fut)
        } else if str_eq(s, "FUND") {
            Some(SegmentType::Fund)
        } else {
            None
        }
    }

    /// Reading back a wire name gives the value it was written from.
    pub proof fn law_wire_roundtrip(self)
        ensures
            SegmentType::from_wire_spec(self.wire()) == Some(self),
    {
        match self {
            SegmentType::All => {
                reveal_strlit("ALL");
            },
            SegmentType::Sec => {
                reveal_strlit("SEC");
                reveal_strlit("ALL");
                assert("SEC"@[0] != "ALL"@[0]);
            },
            SegmentType::Fut => {
                reveal_strlit("FUT");
                reveal_strlit("ALL");
                assert("FUT"@[0] != "ALL"@[0]);
                reveal_strlit("SEC");
                assert("FUT"@[0] != "SEC"@[0]);
            },
            SegmentType::Fund => {
                reveal_strlit("FUND");
                reveal_strlit("ALL");
                assert("FUND"@.len() != "ALL"@.len());
                reveal_strlit("SEC");
                assert("FUND"@.len() != "SEC"@.len());
                reveal_strlit("FUT");
                assert("FUND"@.len() != "FUT"@.len());
            },
        }
    }
}

/// A kind of corporate action.
#[derive(Debug, Clone, Copy, PartialEq, Eq, Structural)]
pub enum CorporateActionType {
    /// `split`
    Split,
    /// `dividend`
    Dividend,
    /// `earning`
    Earning,
    /// `symbol_change`
    SymbolChange,
    /// `delisting`
    Delisting,
    /// `ipo`
    Ipo,
}

impl CorporateActionType {
    /// The name this value has on the wire.
    pub open spec fn wire(self) -> Seq<char> {
        match self {
            CorporateActionType::Split => "split"@,
            CorporateActionType::Dividend => "dividend"@,
            CorporateActionType::Earning => "earning"@,
            CorporateActionType::SymbolChange => "symbol_change"@,
            CorporateActionType::Delisting => "delisting"@,
            CorporateActionType::Ipo => "ipo"@,
        }
    }

    /// The value whose wire name is `s`, if any.
    pub open spec fn from_wire_spec(s: Seq<char>) -> Option<CorporateActionType> {
        if s == "split"@ {
            Some(CorporateActionType::Split)
        } else if s == "dividend"@ {
            Some(CorporateActionType::Dividend)
        } else if s == "earning"@ {
            Some(CorporateActionType::Earning)
        } else if s == "symbol_change"@ {
            Some(CorporateActionType::SymbolChange)
        } else if s == "delisting"@ {
            Some(CorporateActionType::Delisting)
        } else if s == "ipo"@ {
            Some(CorporateActionType::Ipo)
        } else {
            None
        }
    }

    /// The wire name of `self`.
    pub fn as_str(&self) -> (s: &'static str)
        ensures
            s@ == self.wire(),
    {
        match self {
            CorporateActionType::Split => "split",
            CorporateActionType::Dividend => "dividend",
            CorporateActionType::Earning => "earning",
            CorporateActionType::SymbolChange => "symbol_change",
            CorporateActionType::Delisting => "delisting",
            CorporateActionType::Ipo => "ipo",
        }
    }

    /// The value whose wire name is `s`, if any.
    pub fn from_wire(s: &str) -> (r: Option<CorporateActionType>)
        ensures
            r == CorporateActionType::from_wire_spec(s@),
    {
        if str_eq(s, "split") {
            Some(CorporateActionType::Split)
        } else if str_eq(s, "dividend") {
            Some(CorporateActionType::Dividend)
        } else if str_eq(s, "earning") {
            Some(CorporateActionType::Earning)
        } else if str_eq(s, "symbol_change") {
            Some(CorporateActionType::SymbolChange)
        } else if str_eq(s, "delisting") {
            Some(CorporateActionType::Delisting)
        } else if str_eq(s, "ipo") {
            Some(CorporateActionType::Ipo)
        } else {
            None
        }
    }

    /// Reading back a wire name gives the value it was written from.
    pub proof fn law_wire_roundtrip(self)
        ensures
            CorporateActionType::from_wire_spec(self.wire()) == Some(self),
    {
        match self {
            CorporateActionType::Split => {
                reveal_strlit("split");
            },
            CorporateActionType::Dividend => {
                reveal_strlit("dividend");
                reveal_strlit("split");
                assert("dividend"@.len() != "split"@.len());
            },
            CorporateActionType::Earning => {
                reveal_strlit("earning");
                reveal_strlit("split");
                assert("earning"@.len() != "split"@.len());
                reveal_strlit("dividend");
                assert("earning"@.len() != "dividend"@.len());
            },
            CorporateActionType::SymbolChange => {
                reveal_strlit("symbol_change");
                reveal_strlit("split");
                assert("symbol_change"@.len() != "split"@.len());
                reveal_strlit("dividend");
                assert("symbol_change"@.len() != "dividend"@.len());
                reveal_strlit("earning");
                assert("symbol_change"@.len() != "earning"@.len());
            },
            CorporateActionType::Delisting => {
                reveal_strlit("delisting");
                reveal_strlit("split");
                assert("delisting"@.len() != "split"@.len());
                reveal_strlit("dividend");
                assert("delisting"@.len() != "dividend"@.len());
                reveal_strlit("earning");
                assert("delisting"@.len() != "earning"@.len());
                reveal_strlit("symbol_change");
                assert("delisting"@.len() != "symbol_change"@.len());
            },
            CorporateActionType::Ipo => {
                reveal_strlit("ipo");
                reveal_strlit("split");
                assert("ipo"@.len() != "split"@.len());
                reveal_strlit("dividend");
                assert("ipo"@.len() != "dividend"@.len());
                reveal_strlit("earning");
                assert("ipo"@.len() != "earning"@.len());
                reveal_strlit("symbol_change");
                assert("ipo"@.len() != "symbol_change"@.len());
                reveal_strlit("delisting");
                assert("ipo"@.len() != "delisting"@.len());
            },
        }
    }
}

/// A level of the industry classification (1 to 4).
#[derive(Debug, Clone, Copy, PartialEq, Eq, Structural)]
pub enum IndustryLevel {
    /// `GSECTOR`
    GSector,
    /// `GGROUP`
    GGroup,
    /// `GIND`
    GInd,
    /// `GSUBIND`
    GSubInd,
}

impl IndustryLevel {
    /// The name this value has on the wire.
    pub open spec fn wire(self) -> Seq<char> {
        match self {
            IndustryLevel::GSector => "GSECTOR"@,
            IndustryLevel::GGroup => "GGROUP"@,
            IndustryLevel::GInd => "GIND"@,
            IndustryLevel::GSubInd => "GSUBIND"@,
        }
    }

    /// The value whose wire name is `s`, if any.
    pub open spec fn from_wire_spec(s: Seq<char>) -> Option<IndustryLevel> {
        if s == "GSECTOR"@ {
            Some(IndustryLevel::GSector)
        } else if s == "GGROUP"@ {
            Some(IndustryLevel::GGroup)
        } else if s == "GIND"@ {
            Some(IndustryLevel::GInd)
        } else if s == "GSUBIND"@ {
            Some(IndustryLevel::GSubInd)
        } else {
            None
        }
    }

    /// The wire name of `self`.
    pub fn as_str(&self) -> (s: &'static str)
        ensures
            s@ == self.wire(),
    {
        match self {
            IndustryLevel::GSector => "GSECTOR",
            IndustryLevel::GGroup => "GGROUP",
            IndustryLevel::GInd => "GIND",
            IndustryLevel::GSubInd => "GSUBIND",
        }
    }

    /// The value whose wire name is `s`, if any.
    pub fn from_wire(s: &str) -> (r: Option<IndustryLevel>)
        ensures
            r == IndustryLevel::from_wire_spec(s@),
    {
        if str_eq(s, "GSECTOR") {
            Some(IndustryLevel::GSector)
        } else if str_eq(s, "GGROUP") {
            Some(IndustryLevel::GGroup)
        } else if str_eq(s, "GIND") {
            Some(IndustryLevel::GInd)
        } else if str_eq(s, "GSUBIND") {
            Some(IndustryLevel::GSubInd)
        } else {
            None
        }
    }

    /// Reading back a wire name gives the value it was written from.
    pub proof fn law_wire_roundtrip(self)
        ensures
            IndustryLevel::from_wire_spec(self.wire()) == Some(self),
    {
        match self {
            IndustryLevel::GSector => {
                reveal_strlit("GSECTOR");
            },
            IndustryLevel::GGroup => {
                reveal_strlit("GGROUP");
                reveal_strlit("GSECTOR");
                assert("GGROUP"@.len() != "GSECTOR"@.len());
            },
            IndustryLevel::GInd => {
                reveal_strlit("GIND");
                reveal_strlit("GSECTOR");
                assert("GIND"@.len() != "GSECTOR"@.len());
                reveal_strlit("GGROUP");
                assert("GIND"@.len() != "GGROUP"@.len());
            },
            IndustryLevel::GSubInd => {
                reveal_strlit("GSUBIND");
                reveal_strlit("GSECTOR");
                assert("GSUBIND"@[2] != "GSECTOR"@[2]);
                reveal_strlit("GGROUP");
                assert("GSUBIND"@.len() != "GGROUP"@.len());
                reveal_strlit("GIND");
                assert("GSUBIND"@.len() != "GIND"@.len());
            },
        }
    }
}

/// A sort direction.
#[derive(Debug, Clone, Copy, PartialEq, Eq, Structural)]
pub enum SortDirection {
    /// `SortDir_No`
    No,
    /// `SortDir_Ascend`
    Ascend,
    /// `SortDir_Descend`
    Descend,
}

impl SortDirection {
    /// The name this value has on the wire.
    pub open spec fn wire(self) -> Seq<char> {
        match self {
            SortDirection::No => "SortDir_No"@,
            SortDirection::Ascend => "SortDir_Ascend"@,
            SortDirection::Descend => "SortDir_Descend"@,
        }
    }

    /// The value whose wire name is `s`, if any.
    pub open spec fn from_wire_spec(s: Seq<char>) -> Option<SortDirection> {
        if s == "SortDir_No"@ {
            Some(SortDirection::No)
        } else if s == "SortDir_Ascend"@ {
            Some(SortDirection::Ascend)
        } else if s == "SortDir_Descend"@ {
            Some(SortDirection::Descend)
        } else {
            None
        }
    }

    /// The wire name of `self`.
    pub fn as_str(&self) -> (s: &'static str)
        ensures
            s@ == self.wire(),
    {
        match self {
            SortDirection::No => "SortDir_No",
            SortDirection::Ascend => "SortDir_Ascend",
            SortDirection::Descend => "SortDir_Descend",
        }
    }

    /// The value whose wire name is `s`, if any.
    pub fn from_wire(s: &str) -> (r: Option<SortDirection>)
        ensures
            r == SortDirection::from_wire_spec(s@),
    {
        if str_eq(s, "SortDir_No") {
            Some(SortDirection::No)
        } else if str_eq(s, "SortDir_Ascend") {
            Some(SortDirection::Ascend)
        } else if str_eq(s, "SortDir_Descend") {
            Some(SortDirection::Descend)
        } else {
            None
        }
    }

    /// Reading back a wire name gives the value it was written from.
    pub proof fn law_wire_roundtrip(self)
        ensures
            SortDirection::from_wire_spec(self.wire()) == Some(self),
    {
        match self {
            SortDirection::No => {
                reveal_strlit("SortDir_No");
            },
            SortDirection::Ascend => {
                reveal_strlit("SortDir_Ascend");
                reveal_strlit("SortDir_No");
                assert("SortDir_Ascend"@.len() != "SortDir_No"@.len());
            },
            SortDirection::Descend => {
                reveal_strlit("SortDir_Descend");
                reveal_strlit("SortDir_No");
                assert("SortDir_Descend"@.len() != "SortDir_No"@.len());
                reveal_strlit("SortDir_Ascend");
                assert("SortDir_Descend"@.len() != "SortDir_Ascend"@.len());
            },
        }
    }
}

/// A period of option analysis.
#[derive(Debug, Clone, Copy, PartialEq, Eq, Structural)]
pub enum OptionAnalysisPeriod {
    /// `3year`
    ThreeYear,
    /// `52week`
    FiftyTwoWeek,
    /// `26week`
    TwentySixWeek,
    /// `13week`
    ThirteenWeek,
}

impl OptionAnalysisPeriod {
    /// The name this value has on the wire.
    pub open spec fn wire(self) -> Seq<char> {
        match self {
            OptionAnalysisPeriod::ThreeYear => "3year"@,
            OptionAnalysisPeriod::FiftyTwoWeek => "52week"@,
            OptionAnalysisPeriod::TwentySixWeek => "26week"@,
            OptionAnalysisPeriod::ThirteenWeek => "13week"@,
        }
    }

    /// The value whose wire name is `s`, if any.
    pub open spec fn from_wire_spec(s: Seq<char>) -> Option<OptionAnalysisPeriod> {
        if s == "3year"@ {
            Some(OptionAnalysisPeriod::ThreeYear)
        } else if s == "52week"@ {
            Some(OptionAnalysisPeriod::FiftyTwoWeek)
        } else if s == "26week"@ {
            Some(OptionAnalysisPeriod::TwentySixWeek)
        } else if s == "13week"@ {
            Some(OptionAnalysisPeriod::ThirteenWeek)
        } else {
            None
        }
    }

    /// The wire name of `self`.
    pub fn as_str(&self) -> (s: &'static str)
        ensures
            s@ == self.wire(),
    {
        match self {
            OptionAnalysisPeriod::ThreeYear => "3year",
            OptionAnalysisPeriod::FiftyTwoWeek => "52week",
            OptionAnalysisPeriod::TwentySixWeek => "26week",
            OptionAnalysisPeriod::ThirteenWeek => "13week",
        }
    }

    /// The value whose wire name is `s`, if any.
    pub fn from_wire(s: &str) -> (r: Option<OptionAnalysisPeriod>)
        ensures
            r == OptionAnalysisPeriod::from_wire_spec(s@),
    {
        if str_eq(s, "3year") {
            Some(OptionAnalysisPeriod::ThreeYear)
        } else if str_eq(s, "52week") {
            Some(OptionAnalysisPeriod::FiftyTwoWeek)
        } else if str_eq(s, "26week") {
            Some(OptionAnalysisPeriod::TwentySixWeek)
        } else if str_eq(s, "13week") {
            Some(OptionAnalysisPeriod::ThirteenWeek)
        } else {
            None
        }
    }

    /// Reading back a wire name gives the value it was written from.
    pub proof fn law_wire_roundtrip(self)
        ensures
            OptionAnalysisPeriod::from_wire_spec(self.wire()) == Some(self),
    {
        match self {
            OptionAnalysisPeriod::ThreeYear => {
                reveal_strlit("3year");
            },
            OptionAnalysisPeriod::FiftyTwoWeek => {
                reveal_strlit("52week");
                reveal_strlit("3year");
                assert("52week"@.len() != "3year"@.len());
            },
            OptionAnalysisPeriod::TwentySixWeek => {
                reveal_strlit("26week");
                reveal_strlit("3year");
                assert("26week"@.len() != "3year"@.len());
                reveal_strlit("52week");
                assert("26week"@[0] != "52week"@[0]);
            },
            OptionAnalysisPeriod::ThirteenWeek => {
                reveal_strlit("13week");
                reveal_strlit("3year");
                assert("13week"@.len() != "3year"@.len());
                reveal_strlit("52week");
                assert("13week"@[0] != "52week"@[0]);
                reveal_strlit("26week");
                assert("13week"@[0] != "26week"@[0]);
            },
        }
    }
}

/// A kind of financial report period.
#[derive(Debug, Clone, Copy, PartialEq, Eq, Structural)]
pub enum FinancialReportPeriod {
    /// `Annual`
    Annual,
    /// `Quarterly`
    Quarterly,
    /// `LTM`
    Ltm,
}

impl FinancialReportPeriod {
    /// The name this value has on the wire.
    pub open spec fn wire(self) -> Seq<char> {
        match self {
            FinancialReportPeriod::Annual => "Annual"@,
            FinancialReportPeriod::Quarterly => "Quarterly"@,
            FinancialReportPeriod::Ltm => "LTM"@,
        }
    }

    /// The value whose wire name is `s`, if any.
    pub open spec fn from_wire_spec(s: Seq<char>) -> Option<FinancialReportPeriod> {
        if s == "Annual"@ {
            Some(FinancialReportPeriod::Annual)
        } else if s == "Quarterly"@ {
            Some(FinancialReportPeriod::Quarterly)
        } else if s == "LTM"@ {
            Some(FinancialReportPeriod::Ltm)
        } else {
            None
        }
    }

    /// The wire name of `self`.
    pub fn as_str(&self) -> (s: &'static str)
        ensures
            s@ == self.wire(),
    {
        match self {
            FinancialReportPeriod::Annual => "Annual",
            FinancialReportPeriod::Quarterly => "Quarterly",
            FinancialReportPeriod::Ltm => "LTM",
        }
    }

    /// The value whose wire name is `s`, if any.
    pub fn from_wire(s: &str) -> (r: Option<FinancialReportPeriod>)
        ensures
            r == FinancialReportPeriod::from_wire_spec(s@),
    {
        if str_eq(s, "Annual") {
            Some(FinancialReportPeriod::Annual)
        } else if str_eq(s, "Quarterly") {
            Some(FinancialReportPeriod::Quarterly)
        } else if str_eq(s, "LTM") {
            Some(FinancialReportPeriod::Ltm)
        } else {
            None
        }
    }

    /// Reading back a wire name gives the value it was written from.
    pub proof fn law_wire_roundtrip(self)
        ensures
            FinancialReportPeriod::from_wire_spec(self.wire()) == Some(self),
    {
        match self {
            FinancialReportPeriod::Annual => {
                reveal_strlit("Annual");
            },
            FinancialReportPeriod::Quarterly => {
                reveal_strlit("Quarterly");
                reveal_strlit("Annual");
                assert("Quarterly"@.len() != "Annual"@.len());
            },
            FinancialReportPeriod::Ltm => {
                reveal_strlit("LTM");
                reveal_strlit("Annual");
                assert("LTM"@.len() != "Annual"@.len());
                reveal_strlit("Quarterly");
                assert("LTM"@.len() != "Quarterly"@.len());
            },
        }
    }
}

/// How long an order stays in force.
#[derive(Debug, Clone, Copy, PartialEq, Eq, Structural)]
pub enum TimeInForce {
    /// `DAY`
    Day,
    /// `GTC`
    Gtc,
    /// `OPG`
    Opg,
}

impl TimeInForce {
    /// The name this value has on the wire.
    pub open spec fn wire(self) -> Seq<char> {
        match self {
            TimeInForce::Day => "DAY"@,
            TimeInForce::Gtc => "GTC"@,
            TimeInForce::Opg => "OPG"@,
        }
    }

    /// The value whose wire name is `s`, if any.
    pub open spec fn from_wire_spec(s: Seq<char>) -> Option<TimeInForce> {
        if s == "DAY"@ {
            Some(TimeInForce::Day)
        } else if s == "GTC"@ {
            Some(TimeInForce::Gtc)
        } else if s == "OPG"@ {
            Some(TimeInForce::Opg)
        } else {
            None
        }
    }

    /// The wire name of `self`.
    pub fn as_str(&self) -> (s: &'static str)
        ensures
            s@ == self.wire(),
    {
        match self {
            TimeInForce::Day => "DAY",
            TimeInForce::Gtc => "GTC",
            TimeInForce::Opg => "OPG",
        }
    }

    /// The value whose wire name is `s`, if any.
    pub fn from_wire(s: &str) -> (r: Option<TimeInForce>)
        ensures
            r == TimeInForce::from_wire_spec(s@),
    {
        if str_eq(s, "DAY") {
            Some(TimeInForce::Day)
        } else if str_eq(s, "GTC") {
            Some(TimeInForce::Gtc)
        } else if str_eq(s, "OPG") {
            Some(TimeInForce::Opg)
        } else {
            None
        }
    }

    /// Reading back a wire name gives the value it was written from.
    pub proof fn law_wire_roundtrip(self)
        ensures
            TimeInForce::from_wire_spec(self.wire()) == Some(self),
    {
        match self {
            TimeInForce::Day => {
                reveal_strlit("DAY");
            },
            TimeInForce::Gtc => {
                reveal_strlit("GTC");
                reveal_strlit("DAY");
                assert("GTC"@[0] != "DAY"@[0]);
            },
            TimeInForce::Opg => {
                reveal_strlit("OPG");
                reveal_strlit("DAY");
                assert("OPG"@[0] != "DAY"@[0]);
                reveal_strlit("GTC");
                assert("OPG"@[0] != "GTC"@[0]);
            },
        }
    }
}

impl OrderStatus {
    /// The server's numeric code of the status.
    pub open spec fn code_spec(self) -> int {
        match self {
            OrderStatus::Invalid => -2,
            OrderStatus::Initial => -1,
            OrderStatus::PendingCancel => 3,
            OrderStatus::Cancelled => 4,
            OrderStatus::Submitted => 5,
            OrderStatus::Filled => 6,
            OrderStatus::Inactive => 7,
            OrderStatus::PendingSubmit => 8,
        }
    }

    /// The server's numeric code: Invalid -2, Initial -1, PendingCancel 3,
    /// Cancelled 4, Submitted 5, Filled 6, Inactive 7, PendingSubmit 8.
    pub fn code(&self) -> (c: i32)
        ensures
            c == self.code_spec(),
    {
        match self {
            OrderStatus::Invalid => -2,
            OrderStatus::Initial => -1,
            OrderStatus::PendingCancel => 3,
            OrderStatus::Cancelled => 4,
            OrderStatus::Submitted => 5,
            OrderStatus::Filled => 6,
            OrderStatus::Inactive => 7,
            OrderStatus::PendingSubmit => 8,
        }
    }
}

/// The status name for a numeric status code; `Unknown` for any other code.
pub open spec fn order_status_name_spec(code: int) -> Seq<char> {
    if code == -2 {
        "Invalid"@
    } else if code == -1 {
        "Initial"@
    } else if code == 3 {
        "PendingCancel"@
    } else if code == 4 {
        "Cancelled"@
    } else if code == 5 {
        "Submitted"@
    } else if code == 6 {
        "Filled"@
    } else if code == 7 {
        "Inactive"@
    } else if code == 8 {
        "PendingSubmit"@
    } else {
        "Unknown"@
    }
}

/// The status name that a numeric status code stands for (orders may carry
/// their status as a number); `Unknown` for a code no status has.
pub fn order_status_name(code: i64) -> (s: &'static str)
    ensures
        s@ == order_status_name_spec(code as int),
{
    if code == -2 {
        "Invalid"
    } else if code == -1 {
        "Initial"
    } else if code == 3 {
        "PendingCancel"
    } else if code == 4 {
        "Cancelled"
    } else if code == 5 {
        "Submitted"
    } else if code == 6 {
        "Filled"
    } else if code == 7 {
        "Inactive"
    } else if code == 8 {
        "PendingSubmit"
    } else {
        "Unknown"
    }
}

/// An order's `status` field as it arrives: text, a number (with its value
/// when it is an integer that fits in `i64`, none otherwise), or anything
/// else (null, a boolean, an array, an object).
pub enum StatusValue {
    Text(String),
    Number(Option<i64>),
    Other,
}

/// The status name a `status` field gives: text is kept as it is, a number
/// is read as a status code (a number that is no `i64` counts as 0), and
/// anything else gives the empty name.
pub open spec fn status_value_name(v: StatusValue) -> Seq<char> {
    match v {
        StatusValue::Text(s) => s@,
        StatusValue::Number(Some(code)) => order_status_name_spec(code as int),
        StatusValue::Number(None) => order_status_name_spec(0),
        StatusValue::Other => Seq::empty(),
    }
}

/// The status name of an order's `status` field.
pub fn status_from_value(v: StatusValue) -> (s: String)
    ensures
        s@ == status_value_name(v),
{
    match v {
        StatusValue::Text(t) => t,
        StatusValue::Number(Some(code)) => owned(order_status_name(code)),
        StatusValue::Number(None) => owned(order_status_name(0)),
        StatusValue::Other => String::new(),
    }
}

/// A status sent as its numeric code reads back as the status's name, and
/// a status sent as text is kept.
pub proof fn law_status_field_name(s: OrderStatus, text: String)
    ensures
        status_value_name(StatusValue::Number(Some(s.code_spec() as i64))) == s.wire(),
        status_value_name(StatusValue::Text(text)) == text@,
{
}

/// A status's numeric code is read back as that status's name.
pub proof fn law_order_status_code_name(s: OrderStatus)
    ensures
        order_status_name_spec(s.code_spec()) == s.wire(),
{
}

} // verus!
