//! Trade ticks of the push channel: exchange (part code) names, trade
//! condition names, and the decoding of a compressed trade-tick record.
//!
//! A record carries its times as successive differences and its prices as
//! integers relative to a base; a price in currency units is the tick's
//! `price_units` divided by `10^price_offset`.

use vstd::prelude::*;
use crate::text::{chars_of, owned, string_of, str_eq};

verus! {

/// Full name of the exchange with part code `c`; empty when none has it.
pub open spec fn part_name_of(c: char) -> Seq<char> {
    if c == 'a' {
        "NYSE American, LLC (NYSE American)"@
    } else if c == 'b' {
        "NASDAQ OMX BX, Inc. (NASDAQ OMX BX)"@
    } else if c == 'c' {
        "NYSE National, Inc. (NYSE National)"@
    } else if c == 'd' {
        "FINRA Alternative Display Facility (ADF)"@
    } else if c == 'h' {
        "MIAX Pearl Exchange, LLC (MIAX)"@
    } else if c == 'i' {
        "International Securities Exchange, LLC (ISE)"@
    } else if c == 'j' {
        "Cboe EDGA Exchange, Inc. (Cboe EDGA)"@
    } else if c == 'k' {
        "Cboe EDGX Exchange, Inc. (Cboe EDGX)"@
    } else if c == 'l' {
        "Long-Term Stock Exchange, Inc. (LTSE)"@
    } else if c == 'm' {
        "NYSE Chicago, Inc. (NYSE Chicago)"@
    } else if c == 'n' {
        "New York Stock Exchange, LLC (NYSE)"@
    } else if c == 'p' {
        "NYSE Arca, Inc. (NYSE Arca)"@
    } else if c == 's' {
        "Consolidated Tape System (CTS)"@
    } else if c == 't' {
        "NASDAQ Stock Market, LLC (NASDAQ)"@
    } else if c == 'u' {
        "Members Exchange, LLC (MEMX)"@
    } else if c == 'v' {
        "Investors' Exchange, LLC. (IEX)"@
    } else if c == 'w' {
        "CBOE Stock Exchange, Inc. (CBSX)"@
    } else if c == 'x' {
        "NASDAQ OMX PSX, Inc. (NASDAQ OMX PSX)"@
    } else if c == 'y' {
        "Cboe BYX Exchange, Inc. (Cboe BYX)"@
    } else if c == 'z' {
        "Cboe BZX Exchange, Inc. (Cboe BZX)"@
    } else {
        Seq::empty()
    }
}

/// Short name of the exchange with part code `c`; empty when none has it.
pub open spec fn part_short_name_of(c: char) -> Seq<char> {
    if c == 'a' {
        "AMEX"@
    } else if c == 'b' {
        "BX"@
    } else if c == 'c' {
        "NSX"@
    } else if c == 'd' {
        "ADF"@
    } else if c == 'h' {
        "MIAX"@
    } else if c == 'i' {
        "ISE"@
    } else if c == 'j' {
        "EDGA"@
    } else if c == 'k' {
        "EDGX"@
    } else if c == 'l' {
        "LTSE"@
    } else if c == 'm' {
        "CHO"@
    } else if c == 'n' {
        "NYSE"@
    } else if c == 'p' {
        "ARCA"@
    } else if c == 's' {
        "CTS"@
    } else if c == 't' {
        "NSDQ"@
    } else if c == 'u' {
        "MEMX"@
    } else if c == 'v' {
        "IEX"@
    } else if c == 'w' {
        "CBSX"@
    } else if c == 'x' {
        "PSX"@
    } else if c == 'y' {
        "BYX"@
    } else if c == 'z' {
        "BZX"@
    } else {
        Seq::empty()
    }
}

/// Name of a US trade condition code; empty when unknown.
pub open spec fn us_cond_of(c: char) -> Seq<char> {
    if c == ' ' {
        "US_REGULAR_SALE"@
    } else if c == 'B' {
        "US_BUNCHED_TRADE"@
    } else if c == 'C' {
        "US_CASH_TRADE"@
    } else if c == 'F' {
        "US_INTERMARKET_SWEEP"@
    } else if c == 'G' {
        "US_BUNCHED_SOLD_TRADE"@
    } else if c == 'H' {
        "US_PRICE_VARIATION_TRADE"@
    } else if c == 'I' {
        "US_ODD_LOT_TRADE"@
    } else if c == 'K' {
        "US_RULE_127_OR_155_TRADE"@
    } else if c == 'L' {
        "US_SOLD_LAST"@
    } else if c == 'M' {
        "US_MARKET_CENTER_CLOSE_PRICE"@
    } else if c == 'N' {
        "US_NEXT_DAY_TRADE"@
    } else if c == 'O' {
        "US_MARKET_CENTER_OPENING_TRADE"@
    } else if c == 'P' {
        "US_PRIOR_REFERENCE_PRICE"@
    } else if c == 'Q' {
        "US_MARKET_CENTER_OPEN_PRICE"@
    } else if c == 'R' {
        "US_SELLER"@
    } else if c == 'T' {
        "US_FORM_T"@
    } else if c == 'U' {
        "US_EXTENDED_TRADING_HOURS"@
    } else if c == 'V' {
        "US_CONTINGENT_TRADE"@
    } else if c == 'W' {
        "US_AVERAGE_PRICE_TRADE"@
    } else if c == 'X' {
        "US_CROSS_TRADE"@
    } else if c == 'Z' {
        "US_SOLD_OUT_OF_SEQUENCE"@
    } else if c == '0' {
        "US_ODD_LOST_CROSS_TRADE"@
    } else if c == '4' {
        "US_DERIVATIVELY_PRICED"@
    } else if c == '5' {
        "US_MARKET_CENTER_RE_OPENING_TRADE"@
    } else if c == '6' {
        "US_MARKET_CENTER_CLOSING_TRADE"@
    } else if c == '7' {
        "US_QUALIFIED_CONTINGENT_TRADE"@
    } else if c == '9' {
        "US_CONSOLIDATED_LAST_PRICE_PER_LISTING_PACKET"@
    } else {
        Seq::empty()
    }
}

/// Name of a Hong Kong trade condition code; empty when unknown.
pub open spec fn hk_cond_of(c: char) -> Seq<char> {
    if c == ' ' {
        "HK_AUTOMATCH_NORMAL"@
    } else if c == 'D' {
        "HK_ODD_LOT_TRADE"@
    } else if c == 'U' {
        "HK_AUCTION_TRADE"@
    } else if c == '*' {
        "HK_OVERSEAS_TRADE"@
    } else if c == 'P' {
        "HK_LATE_TRADE_OFF_EXCHG"@
    } else if c == 'M' {
        "HK_NON_DIRECT_OFF_EXCHG_TRADE"@
    } else if c == 'X' {
        "HK_DIRECT_OFF_EXCHG_TRADE"@
    } else if c == 'Y' {
        "HK_AUTOMATIC_INTERNALIZED"@
    } else {
        Seq::empty()
    }
}

/// Full exchange name of a part code.
fn part_name_entry(c: char) -> (s: &'static str)
    ensures
        s@ == part_name_of(c),
{
    proof {
        reveal_strlit("");
    }
    if c == 'a' {
        "NYSE American, LLC (NYSE American)"
    } else if c == 'b' {
        "NASDAQ OMX BX, Inc. (NASDAQ OMX BX)"
    } else if c == 'c' {
        "NYSE National, Inc. (NYSE National)"
    } else if c == 'd' {
        "FINRA Alternative Display Facility (ADF)"
    } else if c == 'h' {
        "MIAX Pearl Exchange, LLC (MIAX)"
    } else if c == 'i' {
        "International Securities Exchange, LLC (ISE)"
    } else if c == 'j' {
        "Cboe EDGA Exchange, Inc. (Cboe EDGA)"
    } else if c == 'k' {
        "Cboe EDGX Exchange, Inc. (Cboe EDGX)"
    } else if c == 'l' {
        "Long-Term Stock Exchange, Inc. (LTSE)"
    } else if c == 'm' {
        "NYSE Chicago, Inc. (NYSE Chicago)"
    } else if c == 'n' {
        "New York Stock Exchange, LLC (NYSE)"
    } else if c == 'p' {
        "NYSE Arca, Inc. (NYSE Arca)"
    } else if c == 's' {
        "Consolidated Tape System (CTS)"
    } else if c == 't' {
        "NASDAQ Stock Market, LLC (NASDAQ)"
    } else if c == 'u' {
        "Members Exchange, LLC (MEMX)"
    } else if c == 'v' {
        "Investors' Exchange, LLC. (IEX)"
    } else if c == 'w' {
        "CBOE Stock Exchange, Inc. (CBSX)"
    } else if c == 'x' {
        "NASDAQ OMX PSX, Inc. (NASDAQ OMX PSX)"
    } else if c == 'y' {
        "Cboe BYX Exchange, Inc. (Cboe BYX)"
    } else if c == 'z' {
        "Cboe BZX Exchange, Inc. (Cboe BZX)"
    } else {
        ""
    }
}

/// Short exchange name of a part code.
fn part_short_name_entry(c: char) -> (s: &'static str)
    ensures
        s@ == part_short_name_of(c),
{
    proof {
        reveal_strlit("");
    }
    if c == 'a' {
        "AMEX"
    } else if c == 'b' {
        "BX"
    } else if c == 'c' {
        "NSX"
    } else if c == 'd' {
        "ADF"
    } else if c == 'h' {
        "MIAX"
    } else if c == 'i' {
        "ISE"
    } else if c == 'j' {
        "EDGA"
    } else if c == 'k' {
        "EDGX"
    } else if c == 'l' {
        "LTSE"
    } else if c == 'm' {
        "CHO"
    } else if c == 'n' {
        "NYSE"
    } else if c == 'p' {
        "ARCA"
    } else if c == 's' {
        "CTS"
    } else if c == 't' {
        "NSDQ"
    } else if c == 'u' {
        "MEMX"
    } else if c == 'v' {
        "IEX"
    } else if c == 'w' {
        "CBSX"
    } else if c == 'x' {
        "PSX"
    } else if c == 'y' {
        "BYX"
    } else if c == 'z' {
        "BZX"
    } else {
        ""
    }
}

/// US trade condition name.
fn us_cond_entry(c: char) -> (s: &'static str)
    ensures
        s@ == us_cond_of(c),
{
    proof {
        reveal_strlit("");
    }
    if c == ' ' {
        "US_REGULAR_SALE"
    } else if c == 'B' {
        "US_BUNCHED_TRADE"
    } else if c == 'C' {
        "US_CASH_TRADE"
    } else if c == 'F' {
        "US_INTERMARKET_SWEEP"
    } else if c == 'G' {
        "US_BUNCHED_SOLD_TRADE"
    } else if c == 'H' {
        "US_PRICE_VARIATION_TRADE"
    } else if c == 'I' {
        "US_ODD_LOT_TRADE"
    } else if c == 'K' {
        "US_RULE_127_OR_155_TRADE"
    } else if c == 'L' {
        "US_SOLD_LAST"
    } else if c == 'M' {
        "US_MARKET_CENTER_CLOSE_PRICE"
    } else if c == 'N' {
        "US_NEXT_DAY_TRADE"
    } else if c == 'O' {
        "US_MARKET_CENTER_OPENING_TRADE"
    } else if c == 'P' {
        "US_PRIOR_REFERENCE_PRICE"
    } else if c == 'Q' {
        "US_MARKET_CENTER_OPEN_PRICE"
    } else if c == 'R' {
        "US_SELLER"
    } else if c == 'T' {
        "US_FORM_T"
    } else if c == 'U' {
        "US_EXTENDED_TRADING_HOURS"
    } else if c == 'V' {
        "US_CONTINGENT_TRADE"
    } else if c == 'W' {
        "US_AVERAGE_PRICE_TRADE"
    } else if c == 'X' {
        "US_CROSS_TRADE"
    } else if c == 'Z' {
        "US_SOLD_OUT_OF_SEQUENCE"
    } else if c == '0' {
        "US_ODD_LOST_CROSS_TRADE"
    } else if c == '4' {
        "US_DERIVATIVELY_PRICED"
    } else if c == '5' {
        "US_MARKET_CENTER_RE_OPENING_TRADE"
    } else if c == '6' {
        "US_MARKET_CENTER_CLOSING_TRADE"
    } else if c == '7' {
        "US_QUALIFIED_CONTINGENT_TRADE"
    } else if c == '9' {
        "US_CONSOLIDATED_LAST_PRICE_PER_LISTING_PACKET"
    } else {
        ""
    }
}

/// Hong Kong trade condition name.
fn hk_cond_entry(c: char) -> (s: &'static str)
    ensures
        s@ == hk_cond_of(c),
{
    proof {
        reveal_strlit("");
    }
    if c == ' ' {
        "HK_AUTOMATCH_NORMAL"
    } else if c == 'D' {
        "HK_ODD_LOT_TRADE"
    } else if c == 'U' {
        "HK_AUCTION_TRADE"
    } else if c == '*' {
        "HK_OVERSEAS_TRADE"
    } else if c == 'P' {
        "HK_LATE_TRADE_OFF_EXCHG"
    } else if c == 'M' {
        "HK_NON_DIRECT_OFF_EXCHG_TRADE"
    } else if c == 'X' {
        "HK_DIRECT_OFF_EXCHG_TRADE"
    } else if c == 'Y' {
        "HK_AUTOMATIC_INTERNALIZED"
    } else {
        ""
    }
}

/// Full exchange name of a part code: the table entry of a one-letter
/// code, empty otherwise.
pub open spec fn part_name_text(code: Seq<char>) -> Seq<char> {
    if code.len() == 1 {
        part_name_of(code[0])
    } else {
        Seq::empty()
    }
}

/// Short exchange name of a part code: the table entry of a one-letter
/// code, empty otherwise.
pub open spec fn part_short_name_text(code: Seq<char>) -> Seq<char> {
    if code.len() == 1 {
        part_short_name_of(code[0])
    } else {
        Seq::empty()
    }
}

/// The full exchange name of a part code; empty when unknown.
pub fn part_code_name(code: &str) -> (s: &'static str)
    ensures
        s@ == part_name_text(code@),
{
    let v = chars_of(code);
    proof {
        reveal_strlit("");
    }
    if v.len() == 1 {
        part_name_entry(v[0])
    } else {
        ""
    }
}

/// The short exchange name of a part code; empty when unknown.
pub fn part_code_short_name(code: &str) -> (s: &'static str)
    ensures
        s@ == part_short_name_text(code@),
{
    let v = chars_of(code);
    proof {
        reveal_strlit("");
    }
    if v.len() == 1 {
        part_short_name_entry(v[0])
    } else {
        ""
    }
}

/// The name of a US trade condition code; empty when unknown.
pub fn us_trade_cond(ch: char) -> (s: &'static str)
    ensures
        s@ == us_cond_of(ch),
{
    us_cond_entry(ch)
}

/// The name of a Hong Kong trade condition code; empty when unknown.
pub fn hk_trade_cond(ch: char) -> (s: &'static str)
    ensures
        s@ == hk_cond_of(ch),
{
    hk_cond_entry(ch)
}

/// The readable trade condition: the US or Hong Kong table's name, or the
/// code character itself when the table has none.
pub open spec fn trade_cond_text(is_us: bool, ch: char) -> Seq<char> {
    let t = if is_us {
        us_cond_of(ch)
    } else {
        hk_cond_of(ch)
    };
    if t.len() == 0 {
        seq![ch]
    } else {
        t
    }
}

/// The readable trade condition of a code character.
pub fn get_trade_cond(is_us: bool, ch: char) -> (s: String)
    ensures
        s@ == trade_cond_text(is_us, ch),
{
    let t = if is_us {
        us_trade_cond(ch)
    } else {
        hk_trade_cond(ch)
    };
    if t.is_empty() {
        let v = vec![ch];
        assert(v@ =~= seq![ch]);
        string_of(&v)
    } else {
        owned(t)
    }
}

/// Resolves a trade condition code (US table when `is_us`, else Hong Kong);
/// an unknown code stays as it is.
pub fn get_trade_cond_by_code(is_us: bool, ch: char) -> (s: String)
    ensures
        s@ == trade_cond_text(is_us, ch),
{
    get_trade_cond(is_us, ch)
}

/// The US trade-condition table: each listed code reads as its documented
/// name, and every other code stays as it is.
pub proof fn law_us_trade_conditions(c: char)
    ensures
        trade_cond_text(true, ' ') == "US_REGULAR_SALE"@,
        trade_cond_text(true, 'B') == "US_BUNCHED_TRADE"@,
        trade_cond_text(true, 'C') == "US_CASH_TRADE"@,
        trade_cond_text(true, 'F') == "US_INTERMARKET_SWEEP"@,
        trade_cond_text(true, 'G') == "US_BUNCHED_SOLD_TRADE"@,
        trade_cond_text(true, 'H') == "US_PRICE_VARIATION_TRADE"@,
        trade_cond_text(true, 'I') == "US_ODD_LOT_TRADE"@,
        trade_cond_text(true, 'K') == "US_RULE_127_OR_155_TRADE"@,
        trade_cond_text(true, 'L') == "US_SOLD_LAST"@,
        trade_cond_text(true, 'M') == "US_MARKET_CENTER_CLOSE_PRICE"@,
        trade_cond_text(true, 'N') == "US_NEXT_DAY_TRADE"@,
        trade_cond_text(true, 'O') == "US_MARKET_CENTER_OPENING_TRADE"@,
        trade_cond_text(true, 'P') == "US_PRIOR_REFERENCE_PRICE"@,
        trade_cond_text(true, 'Q') == "US_MARKET_CENTER_OPEN_PRICE"@,
        trade_cond_text(true, 'R') == "US_SELLER"@,
        trade_cond_text(true, 'T') == "US_FORM_T"@,
        trade_cond_text(true, 'U') == "US_EXTENDED_TRADING_HOURS"@,
        trade_cond_text(true, 'V') == "US_CONTINGENT_TRADE"@,
        trade_cond_text(true, 'W') == "US_AVERAGE_PRICE_TRADE"@,
        trade_cond_text(true, 'X') == "US_CROSS_TRADE"@,
        trade_cond_text(true, 'Z') == "US_SOLD_OUT_OF_SEQUENCE"@,
        trade_cond_text(true, '0') == "US_ODD_LOST_CROSS_TRADE"@,
        trade_cond_text(true, '4') == "US_DERIVATIVELY_PRICED"@,
        trade_cond_text(true, '5') == "US_MARKET_CENTER_RE_OPENING_TRADE"@,
        trade_cond_text(true, '6') == "US_MARKET_CENTER_CLOSING_TRADE"@,
        trade_cond_text(true, '7') == "US_QUALIFIED_CONTINGENT_TRADE"@,
        trade_cond_text(true, '9') == "US_CONSOLIDATED_LAST_PRICE_PER_LISTING_PACKET"@,
        !(c == ' ' || c == 'B' || c == 'C' || c == 'F' || c == 'G' || c == 'H' || c == 'I' || c == 'K' || c == 'L' || c == 'M' || c == 'N' || c == 'O' || c == 'P' || c == 'Q' || c == 'R' || c == 'T' || c == 'U' || c == 'V' || c == 'W' || c == 'X' || c == 'Z' || c == '0' || c == '4' || c == '5' || c == '6' || c == '7' || c == '9') ==> trade_cond_text(true, c) == seq![c],
{
    reveal_strlit("US_REGULAR_SALE");
    reveal_strlit("US_BUNCHED_TRADE");
    reveal_strlit("US_CASH_TRADE");
    reveal_strlit("US_INTERMARKET_SWEEP");
    reveal_strlit("US_BUNCHED_SOLD_TRADE");
    reveal_strlit("US_PRICE_VARIATION_TRADE");
    reveal_strlit("US_ODD_LOT_TRADE");
    reveal_strlit("US_RULE_127_OR_155_TRADE");
    reveal_strlit("US_SOLD_LAST");
    reveal_strlit("US_MARKET_CENTER_CLOSE_PRICE");
    reveal_strlit("US_NEXT_DAY_TRADE");
    reveal_strlit("US_MARKET_CENTER_OPENING_TRADE");
    reveal_strlit("US_PRIOR_REFERENCE_PRICE");
    reveal_strlit("US_MARKET_CENTER_OPEN_PRICE");
    reveal_strlit("US_SELLER");
    reveal_strlit("US_FORM_T");
    reveal_strlit("US_EXTENDED_TRADING_HOURS");
    reveal_strlit("US_CONTINGENT_TRADE");
    reveal_strlit("US_AVERAGE_PRICE_TRADE");
    reveal_strlit("US_CROSS_TRADE");
    reveal_strlit("US_SOLD_OUT_OF_SEQUENCE");
    reveal_strlit("US_ODD_LOST_CROSS_TRADE");
    reveal_strlit("US_DERIVATIVELY_PRICED");
    reveal_strlit("US_MARKET_CENTER_RE_OPENING_TRADE");
    reveal_strlit("US_MARKET_CENTER_CLOSING_TRADE");
    reveal_strlit("US_QUALIFIED_CONTINGENT_TRADE");
    reveal_strlit("US_CONSOLIDATED_LAST_PRICE_PER_LISTING_PACKET");
}

/// The Hong Kong trade-condition table: each listed code reads as its
/// documented name, and every other code stays as it is.
pub proof fn law_hk_trade_conditions(c: char)
    ensures
        trade_cond_text(false, ' ') == "HK_AUTOMATCH_NORMAL"@,
        trade_cond_text(false, 'D') == "HK_ODD_LOT_TRADE"@,
        trade_cond_text(false, 'U') == "HK_AUCTION_TRADE"@,
        trade_cond_text(false, '*') == "HK_OVERSEAS_TRADE"@,
        trade_cond_text(false, 'P') == "HK_LATE_TRADE_OFF_EXCHG"@,
        trade_cond_text(false, 'M') == "HK_NON_DIRECT_OFF_EXCHG_TRADE"@,
        trade_cond_text(false, 'X') == "HK_DIRECT_OFF_EXCHG_TRADE"@,
        trade_cond_text(false, 'Y') == "HK_AUTOMATIC_INTERNALIZED"@,
        !(c == ' ' || c == 'D' || c == 'U' || c == '*' || c == 'P' || c == 'M' || c == 'X' || c == 'Y') ==> trade_cond_text(false, c) == seq![c],
{
    reveal_strlit("HK_AUTOMATCH_NORMAL");
    reveal_strlit("HK_ODD_LOT_TRADE");
    reveal_strlit("HK_AUCTION_TRADE");
    reveal_strlit("HK_OVERSEAS_TRADE");
    reveal_strlit("HK_LATE_TRADE_OFF_EXCHG");
    reveal_strlit("HK_NON_DIRECT_OFF_EXCHG_TRADE");
    reveal_strlit("HK_DIRECT_OFF_EXCHG_TRADE");
    reveal_strlit("HK_AUTOMATIC_INTERNALIZED");
}

/// The exchange table: each listed one-letter part code reads as the
/// exchange's full name, and any other code stays as it is.
pub proof fn law_exchange_names(code: Seq<char>)
    ensures
        part_name_or_code(seq!['a']) == "NYSE American, LLC (NYSE American)"@,
        part_name_or_code(seq!['b']) == "NASDAQ OMX BX, Inc. (NASDAQ OMX BX)"@,
        part_name_or_code(seq!['c']) == "NYSE National, Inc. (NYSE National)"@,
        part_name_or_code(seq!['d']) == "FINRA Alternative Display Facility (ADF)"@,
        part_name_or_code(seq!['h']) == "MIAX Pearl Exchange, LLC (MIAX)"@,
        part_name_or_code(seq!['i']) == "International Securities Exchange, LLC (ISE)"@,
        part_name_or_code(seq!['j']) == "Cboe EDGA Exchange, Inc. (Cboe EDGA)"@,
        part_name_or_code(seq!['k']) == "Cboe EDGX Exchange, Inc. (Cboe EDGX)"@,
        part_name_or_code(seq!['l']) == "Long-Term Stock Exchange, Inc. (LTSE)"@,
        part_name_or_code(seq!['m']) == "NYSE Chicago, Inc. (NYSE Chicago)"@,
        part_name_or_code(seq!['n']) == "New York Stock Exchange, LLC (NYSE)"@,
        part_name_or_code(seq!['p']) == "NYSE Arca, Inc. (NYSE Arca)"@,
        part_name_or_code(seq!['s']) == "Consolidated Tape System (CTS)"@,
        part_name_or_code(seq!['t']) == "NASDAQ Stock Market, LLC (NASDAQ)"@,
        part_name_or_code(seq!['u']) == "Members Exchange, LLC (MEMX)"@,
        part_name_or_code(seq!['v']) == "Investors' Exchange, LLC. (IEX)"@,
        part_name_or_code(seq!['w']) == "CBOE Stock Exchange, Inc. (CBSX)"@,
        part_name_or_code(seq!['x']) == "NASDAQ OMX PSX, Inc. (NASDAQ OMX PSX)"@,
        part_name_or_code(seq!['y']) == "Cboe BYX Exchange, Inc. (Cboe BYX)"@,
        part_name_or_code(seq!['z']) == "Cboe BZX Exchange, Inc. (Cboe BZX)"@,
        code.len() != 1 || !(code[0] == 'a' || code[0] == 'b' || code[0] == 'c' || code[0] == 'd' || code[0] == 'h' || code[0] == 'i' || code[0] == 'j' || code[0] == 'k' || code[0] == 'l' || code[0] == 'm' || code[0] == 'n' || code[0] == 'p' || code[0] == 's' || code[0] == 't' || code[0] == 'u' || code[0] == 'v' || code[0] == 'w' || code[0] == 'x' || code[0] == 'y' || code[0] == 'z') ==> part_name_or_code(code) == code,
{
    reveal_strlit("NYSE American, LLC (NYSE American)");
    reveal_strlit("NASDAQ OMX BX, Inc. (NASDAQ OMX BX)");
    reveal_strlit("NYSE National, Inc. (NYSE National)");
    reveal_strlit("FINRA Alternative Display Facility (ADF)");
    reveal_strlit("MIAX Pearl Exchange, LLC (MIAX)");
    reveal_strlit("International Securities Exchange, LLC (ISE)");
    reveal_strlit("Cboe EDGA Exchange, Inc. (Cboe EDGA)");
    reveal_strlit("Cboe EDGX Exchange, Inc. (Cboe EDGX)");
    reveal_strlit("Long-Term Stock Exchange, Inc. (LTSE)");
    reveal_strlit("NYSE Chicago, Inc. (NYSE Chicago)");
    reveal_strlit("New York Stock Exchange, LLC (NYSE)");
    reveal_strlit("NYSE Arca, Inc. (NYSE Arca)");
    reveal_strlit("Consolidated Tape System (CTS)");
    reveal_strlit("NASDAQ Stock Market, LLC (NASDAQ)");
    reveal_strlit("Members Exchange, LLC (MEMX)");
    reveal_strlit("Investors' Exchange, LLC. (IEX)");
    reveal_strlit("CBOE Stock Exchange, Inc. (CBSX)");
    reveal_strlit("NASDAQ OMX PSX, Inc. (NASDAQ OMX PSX)");
    reveal_strlit("Cboe BYX Exchange, Inc. (Cboe BYX)");
    reveal_strlit("Cboe BZX Exchange, Inc. (Cboe BZX)");
}

/// The exchange table: each listed one-letter part code reads as the
/// exchange's short name, and any other code stays as it is.
pub proof fn law_exchange_short_names(code: Seq<char>)
    ensures
        part_short_name_or_code(seq!['a']) == "AMEX"@,
        part_short_name_or_code(seq!['b']) == "BX"@,
        part_short_name_or_code(seq!['c']) == "NSX"@,
        part_short_name_or_code(seq!['d']) == "ADF"@,
        part_short_name_or_code(seq!['h']) == "MIAX"@,
        part_short_name_or_code(seq!['i']) == "ISE"@,
        part_short_name_or_code(seq!['j']) == "EDGA"@,
        part_short_name_or_code(seq!['k']) == "EDGX"@,
        part_short_name_or_code(seq!['l']) == "LTSE"@,
        part_short_name_or_code(seq!['m']) == "CHO"@,
        part_short_name_or_code(seq!['n']) == "NYSE"@,
        part_short_name_or_code(seq!['p']) == "ARCA"@,
        part_short_name_or_code(seq!['s']) == "CTS"@,
        part_short_name_or_code(seq!['t']) == "NSDQ"@,
        part_short_name_or_code(seq!['u']) == "MEMX"@,
        part_short_name_or_code(seq!['v']) == "IEX"@,
        part_short_name_or_code(seq!['w']) == "CBSX"@,
        part_short_name_or_code(seq!['x']) == "PSX"@,
        part_short_name_or_code(seq!['y']) == "BYX"@,
        part_short_name_or_code(seq!['z']) == "BZX"@,
        code.len() != 1 || !(code[0] == 'a' || code[0] == 'b' || code[0] == 'c' || code[0] == 'd' || code[0] == 'h' || code[0] == 'i' || code[0] == 'j' || code[0] == 'k' || code[0] == 'l' || code[0] == 'm' || code[0] == 'n' || code[0] == 'p' || code[0] == 's' || code[0] == 't' || code[0] == 'u' || code[0] == 'v' || code[0] == 'w' || code[0] == 'x' || code[0] == 'y' || code[0] == 'z') ==> part_short_name_or_code(code) == code,
{
    reveal_strlit("AMEX");
    reveal_strlit("BX");
    reveal_strlit("NSX");
    reveal_strlit("ADF");
    reveal_strlit("MIAX");
    reveal_strlit("ISE");
    reveal_strlit("EDGA");
    reveal_strlit("EDGX");
    reveal_strlit("LTSE");
    reveal_strlit("CHO");
    reveal_strlit("NYSE");
    reveal_strlit("ARCA");
    reveal_strlit("CTS");
    reveal_strlit("NSDQ");
    reveal_strlit("MEMX");
    reveal_strlit("IEX");
    reveal_strlit("CBSX");
    reveal_strlit("PSX");
    reveal_strlit("BYX");
    reveal_strlit("BZX");
}

/// Whether `c` is an ASCII capital letter.
pub open spec fn is_upper(c: char) -> bool {
    'A' <= c <= 'Z'
}

/// A US stock symbol: non-empty, with no `.` separator, and made of
/// capital letters only.
pub open spec fn us_symbol(s: Seq<char>) -> bool {
    &&& s.len() > 0
    &&& forall|i: int| 0 <= i < s.len() ==> #[trigger] s[i] != '.'
    &&& forall|i: int| 0 <= i < s.len() ==> is_upper(#[trigger] s[i])
}

/// Whether `symbol` is a US stock symbol.
pub fn is_us_symbol(symbol: &str) -> (b: bool)
    ensures
        b == us_symbol(symbol@),
{
    let v = chars_of(symbol);
    if v.len() == 0 {
        return false;
    }
    let mut i: usize = 0;
    while i < v.len()
        invariant
            v@ == symbol@,
            i <= v@.len(),
            forall|k: int| 0 <= k < i ==> is_upper(#[trigger] v@[k]),
        decreases v@.len() - i,
    {
        if v[i] == '.' || !('A' <= v[i] && v[i] <= 'Z') {
            assert(!is_upper(v@[i as int]));
            return false;
        }
        i = i + 1;
    }
    true
}

/// Whether `symbol` is a US stock symbol (capitals only, no dot).
pub fn is_us_stock_symbol(symbol: &str) -> (b: bool)
    ensures
        b == us_symbol(symbol@),
{
    is_us_symbol(symbol)
}

/// The full exchange name of a part code, or the code itself when unknown.
pub open spec fn part_name_or_code(code: Seq<char>) -> Seq<char> {
    if part_name_text(code).len() == 0 {
        code
    } else {
        part_name_text(code)
    }
}

/// The short exchange name of a part code, or the code itself when unknown.
pub open spec fn part_short_name_or_code(code: Seq<char>) -> Seq<char> {
    if part_short_name_text(code).len() == 0 {
        code
    } else {
        part_short_name_text(code)
    }
}

/// The full exchange name of a part code, or the code itself when unknown.
pub fn get_part_name_by_code(code: &str) -> (s: String)
    ensures
        s@ == part_name_or_code(code@),
{
    let t = part_code_name(code);
    if t.is_empty() {
        owned(code)
    } else {
        owned(t)
    }
}

/// The short exchange name of a part code, or the code itself when unknown.
pub fn get_part_short_name_by_code(code: &str) -> (s: String)
    ensures
        s@ == part_short_name_or_code(code@),
{
    let t = part_code_short_name(code);
    if t.is_empty() {
        owned(code)
    } else {
        owned(t)
    }
}

/// A compressed trade-tick record as pushed. Times are differences from
/// the previous tick, prices are offsets from `price_base`, and a price in
/// currency units is an integer price divided by `10^price_offset`.
#[derive(Debug, Clone)]
pub struct TradeTickData {
    pub symbol: String,
    pub sec_type: String,
    pub quote_level: String,
    pub timestamp: u64,
    /// Serial number of the first tick.
    pub sn: i64,
    pub price_base: i64,
    pub price_offset: i32,
    pub time: Vec<i64>,
    pub price: Vec<i64>,
    pub volume: Vec<i64>,
    /// Trade condition codes, one character per tick.
    pub cond: String,
    /// Tick types, one character per tick (`type` on the wire).
    pub kind: String,
    /// Exchange part codes, one per tick.
    pub part_code: Vec<String>,
    /// Futures: the volumes traded at each tick's time, per venue.
    pub merged_vols: Vec<Vec<i64>>,
}

/// One decoded tick. Its price in currency units is
/// `price_units / 10^price_offset`.
#[derive(Debug, Clone)]
pub struct PushTick {
    pub sn: i64,
    pub time: i64,
    pub price_units: i64,
    pub price_offset: i32,
    pub volume: i64,
    pub tick_type: String,
    pub cond: String,
    pub part_code: String,
    pub part_name: String,
}

/// A decoded trade-tick record.
#[derive(Debug, Clone)]
pub struct PushTradeTick {
    pub symbol: String,
    pub sec_type: String,
    pub quote_level: String,
    pub timestamp: u64,
    pub ticks: Vec<PushTick>,
}

/// The sum of the first `n` entries of `t`: the time of tick `n - 1`.
pub open spec fn time_sum(t: Seq<i64>, n: int) -> int
    decreases n,
{
    if n <= 0 {
        0
    } else {
        time_sum(t, n - 1) + t[n - 1]
    }
}

/// The part code of tick `i`, or the empty code.
pub open spec fn code_at(src: TradeTickData, i: int) -> Seq<char> {
    if i < src.part_code@.len() {
        src.part_code@[i]@
    } else {
        Seq::empty()
    }
}

/// What decoding a stock record needs: a price and a volume for each time,
/// and times, serial numbers and prices that fit in 64 bits.
pub open spec fn stock_record_ok(src: TradeTickData) -> bool {
    let n = src.time@.len() as int;
    &&& src.price@.len() >= n
    &&& src.volume@.len() >= n
    &&& n <= i64::MAX
    &&& src.sn + n <= i64::MAX
    &&& forall|k: int| 0 <= k <= n ==> i64::MIN <= #[trigger] time_sum(src.time@, k) <= i64::MAX
    &&& forall|k: int| 0 <= k < n ==> i64::MIN <= src.price_base + #[trigger] src.price@[k] <= i64::MAX
}

/// Tick `i` of a stock record: serial number `sn + i`, time the sum of the
/// first `i + 1` differences, price `price_base + price[i]`, its type
/// character, its trade condition (a blank when missing) read in the US
/// table for US symbols and the Hong Kong one otherwise, and its
/// exchange's short and full names.
pub open spec fn stock_tick_ok(src: TradeTickData, i: int, t: PushTick) -> bool {
    let is_us = us_symbol(src.symbol@);
    &&& t.sn == src.sn + i
    &&& t.time == time_sum(src.time@, i + 1)
    &&& t.price_units == src.price_base + src.price@[i]
    &&& t.price_offset == src.price_offset
    &&& t.volume == src.volume@[i]
    &&& t.tick_type@ == (if i < src.kind@.len() {
        seq![src.kind@[i]]
    } else {
        Seq::empty()
    })
    &&& t.cond@ == trade_cond_text(
        is_us,
        if i < src.cond@.len() {
            src.cond@[i]
        } else {
            ' '
        },
    )
    &&& t.part_code@ == part_short_name_or_code(code_at(src, i))
    &&& t.part_name@ == part_name_or_code(code_at(src, i))
}

/// The number of futures ticks the first `i` times give.
pub open spec fn vol_count(src: TradeTickData, i: int) -> int
    decreases i,
{
    if i <= 0 {
        0
    } else {
        vol_count(src, i - 1) + src.merged_vols@[i - 1]@.len()
    }
}

/// Position of futures tick `j` of time `i`.
pub open spec fn tick_index(src: TradeTickData, i: int, j: int) -> int {
    vol_count(src, i) + j
}

/// What decoding a futures record needs: a price and volumes for each
/// time, and times, serial numbers and prices that fit in 64 bits.
pub open spec fn future_record_ok(src: TradeTickData) -> bool {
    let n = src.time@.len() as int;
    &&& src.price@.len() >= n
    &&& src.merged_vols@.len() >= n
    &&& src.sn + n <= i64::MAX
    &&& forall|k: int| 0 <= k <= n ==> i64::MIN <= #[trigger] time_sum(src.time@, k) <= i64::MAX
    &&& forall|k: int| 0 <= k < n ==> i64::MIN <= src.price_base + #[trigger] src.price@[k] <= i64::MAX
    &&& forall|i: int, j: int|
        0 <= i < n && 0 <= j < src.merged_vols@[i]@.len() ==> j <= i64::MAX && i64::MIN <= (src.sn
            + i) * 10 && (src.sn + i) * 10 + j <= i64::MAX && #[trigger] tick_index(src, i, j) < usize::MAX
}

/// Futures tick `j` of time `i`: serial number `(sn + i) * 10 + j`, the
/// time and price of time `i`, the `j`-th venue volume; no type, condition
/// or exchange.
pub open spec fn future_tick_ok(src: TradeTickData, i: int, j: int, t: PushTick) -> bool {
    &&& t.sn == (src.sn + i) * 10 + j
    &&& t.time == time_sum(src.time@, i + 1)
    &&& t.price_units == src.price_base + src.price@[i]
    &&& t.price_offset == src.price_offset
    &&& t.volume == src.merged_vols@[i]@[j]
    &&& t.tick_type@.len() == 0
    &&& t.cond@.len() == 0
    &&& t.part_code@.len() == 0
    &&& t.part_name@.len() == 0
}

/// Decodes a stock record.
fn convert_stock_tick(src: &TradeTickData) -> (r: PushTradeTick)
    requires
        stock_record_ok(*src),
    ensures
        r.symbol@ == src.symbol@,
        r.sec_type@ == src.sec_type@,
        r.quote_level@ == src.quote_level@,
        r.timestamp == src.timestamp,
        r.ticks@.len() == src.time@.len(),
        forall|i: int| 0 <= i < r.ticks@.len() ==> stock_tick_ok(*src, i, #[trigger] r.ticks@[i]),
{
    let is_us = is_us_symbol(src.symbol.as_str());
    let cond_chars = chars_of(src.cond.as_str());
    let type_chars = chars_of(src.kind.as_str());
    let n = src.time.len();
    let mut current_time: i64 = 0;
    let mut ticks: Vec<PushTick> = Vec::new();
    let mut i: usize = 0;
    while i < n
        invariant
            n == src.time@.len(),
            stock_record_ok(*src),
            is_us == us_symbol(src.symbol@),
            cond_chars@ == src.cond@,
            type_chars@ == src.kind@,
            i <= n,
            current_time == time_sum(src.time@, i as int),
            ticks@.len() == i,
            forall|k: int| 0 <= k < i ==> stock_tick_ok(*src, k, #[trigger] ticks@[k]),
        decreases n - i,
    {
        assert(i64::MIN <= time_sum(src.time@, i + 1) <= i64::MAX);
        current_time = current_time + src.time[i];
        let raw_code: &str = if i < src.part_code.len() {
            src.part_code[i].as_str()
        } else {
            ""
        };
        proof {
            reveal_strlit("");
            assert(raw_code@ == code_at(*src, i as int));
        }
        let cond_ch = if i < cond_chars.len() {
            cond_chars[i]
        } else {
            ' '
        };
        let tick_type = if i < type_chars.len() {
            let v = vec![type_chars[i]];
            assert(v@ =~= seq![type_chars@[i as int]]);
            string_of(&v)
        } else {
            String::new()
        };
        assert(i64::MIN <= src.price_base + src.price@[i as int] <= i64::MAX);
        let tick = PushTick {
            sn: src.sn + (i as i64),
            time: current_time,
            price_units: src.price_base + src.price[i],
            price_offset: src.price_offset,
            volume: src.volume[i],
            tick_type,
            cond: get_trade_cond(is_us, cond_ch),
            part_code: get_part_short_name_by_code(raw_code),
            part_name: get_part_name_by_code(raw_code),
        };
        assert(stock_tick_ok(*src, i as int, tick));
        ticks.push(tick);
        i = i + 1;
    }
    PushTradeTick {
        symbol: src.symbol.clone(),
        sec_type: src.sec_type.clone(),
        quote_level: src.quote_level.clone(),
        timestamp: src.timestamp,
        ticks,
    }
}

/// Decodes a futures record.
fn convert_future_tick(src: &TradeTickData) -> (r: PushTradeTick)
    requires
        future_record_ok(*src),
    ensures
        r.symbol@ == src.symbol@,
        r.sec_type@ == src.sec_type@,
        r.quote_level@.len() == 0,
        r.timestamp == src.timestamp,
        r.ticks@.len() == vol_count(*src, src.time@.len() as int),
        forall|i: int, j: int|
            0 <= i < src.time@.len() && 0 <= j < src.merged_vols@[i]@.len() ==> future_tick_ok(
                *src,
                i,
                j,
                #[trigger] r.ticks@[tick_index(*src, i, j)],
            ),
{
    let n = src.time.len();
    let mut current_time: i64 = 0;
    let mut ticks: Vec<PushTick> = Vec::new();
    let mut start_sn: i64 = src.sn;
    let mut i: usize = 0;
    while i < n
        invariant
            n == src.time@.len(),
            future_record_ok(*src),
            i <= n,
            start_sn == src.sn + i,
            current_time == time_sum(src.time@, i as int),
            ticks@.len() == vol_count(*src, i as int),
            forall|a: int, b: int|
                0 <= a < i && 0 <= b < src.merged_vols@[a]@.len() ==> future_tick_ok(
                    *src,
                    a,
                    b,
                    #[trigger] ticks@[tick_index(*src, a, b)],
                ),
        decreases n - i,
    {
        assert(i64::MIN <= time_sum(src.time@, i + 1) <= i64::MAX);
        current_time = current_time + src.time[i];
        assert(i64::MIN <= src.price_base + src.price@[i as int] <= i64::MAX);
        let cur_price = src.price_base + src.price[i];
        let vols = &src.merged_vols[i];
        let m = vols.len();
        let mut j: usize = 0;
        while j < m
            invariant
                n == src.time@.len(),
                future_record_ok(*src),
                i < n,
                vols@ == src.merged_vols@[i as int]@,
                m == vols@.len(),
                j <= m,
                start_sn == src.sn + i,
                current_time == time_sum(src.time@, i + 1),
                cur_price == src.price_base + src.price@[i as int],
                ticks@.len() == vol_count(*src, i as int) + j,
                forall|a: int, b: int|
                    0 <= a < i && 0 <= b < src.merged_vols@[a]@.len() ==> future_tick_ok(
                        *src,
                        a,
                        b,
                        #[trigger] ticks@[tick_index(*src, a, b)],
                    ),
                forall|b: int|
                    0 <= b < j ==> future_tick_ok(
                        *src,
                        i as int,
                        b,
                        #[trigger] ticks@[tick_index(*src, i as int, b)],
                    ),
            decreases m - j,
        {
            proof {
                let ii = i as int;
                let jj = j as int;
                assert(0 <= ii < n && 0 <= jj < src.merged_vols@[ii]@.len());
                assert(future_record_ok(*src));
                assert(tick_index(*src, ii, jj) < usize::MAX);
                assert(jj <= i64::MAX && i64::MIN <= (src.sn + ii) * 10 && (src.sn + ii) * 10 + jj
                    <= i64::MAX);
            }
            let tick = PushTick {
                sn: start_sn * 10 + (j as i64),
                time: current_time,
                price_units: cur_price,
                price_offset: src.price_offset,
                volume: vols[j],
                tick_type: String::new(),
                cond: String::new(),
                part_code: String::new(),
                part_name: String::new(),
            };
            let ghost before = ticks@;
            let ghost pushed = tick;
            ticks.push(tick);
            assert(ticks@ == before.push(pushed));
            assert forall|a: int, b: int|
                0 <= a < i && 0 <= b < src.merged_vols@[a]@.len() implies future_tick_ok(
                    *src,
                    a,
                    b,
                    #[trigger] ticks@[tick_index(*src, a, b)],
                ) by {
                lemma_vol_count_mono(*src, a + 1, i as int);
                lemma_vol_count_mono(*src, 0, a);
                assert(vol_count(*src, a + 1) == vol_count(*src, a) + src.merged_vols@[a]@.len());
                assert(tick_index(*src, a, b) < before.len());
                assert(ticks@[tick_index(*src, a, b)] == before[tick_index(*src, a, b)]);
            }
            assert forall|b: int| 0 <= b < j + 1 implies future_tick_ok(
                *src,
                i as int,
                b,
                #[trigger] ticks@[tick_index(*src, i as int, b)],
            ) by {
                if b < j {
                    lemma_vol_count_mono(*src, 0, i as int);
                    assert(ticks@[tick_index(*src, i as int, b)] == before[tick_index(*src, i as int, b)]);
                }
            }
            j = j + 1;
        }
        start_sn = start_sn + 1;
        i = i + 1;
    }
    proof {
        reveal_strlit("");
    }
    PushTradeTick {
        symbol: src.symbol.clone(),
        sec_type: src.sec_type.clone(),
        quote_level: String::new(),
        timestamp: src.timestamp,
        ticks,
    }
}

/// `vol_count` does not decrease.
proof fn lemma_vol_count_mono(src: TradeTickData, a: int, b: int)
    requires
        0 <= a <= b <= src.merged_vols@.len(),
    ensures
        vol_count(src, a) <= vol_count(src, b),
    decreases b - a,
{
    if a < b {
        lemma_vol_count_mono(src, a, b - 1);
    }
}

/// Decodes a trade-tick record: futures (`sec_type` `FUT`) by time and
/// venue, anything else as stock ticks, one per time.
pub fn convert_trade_tick(src: &TradeTickData) -> (r: PushTradeTick)
    requires
        src.sec_type@ == "FUT"@ ==> future_record_ok(*src),
        src.sec_type@ != "FUT"@ ==> stock_record_ok(*src),
    ensures
        r.symbol@ == src.symbol@,
        r.sec_type@ == src.sec_type@,
        r.timestamp == src.timestamp,
        src.sec_type@ == "FUT"@ ==> {
            &&& r.quote_level@.len() == 0
            &&& r.ticks@.len() == vol_count(*src, src.time@.len() as int)
            &&& forall|i: int, j: int|
                0 <= i < src.time@.len() && 0 <= j < src.merged_vols@[i]@.len() ==> future_tick_ok(
                    *src,
                    i,
                    j,
                    #[trigger] r.ticks@[tick_index(*src, i, j)],
                )
        },
        src.sec_type@ != "FUT"@ ==> {
            &&& r.quote_level@ == src.quote_level@
            &&& r.ticks@.len() == src.time@.len()
            &&& forall|i: int| 0 <= i < r.ticks@.len() ==> stock_tick_ok(*src, i, #[trigger] r.ticks@[i])
        },
{
    if str_eq(src.sec_type.as_str(), "FUT") {
        convert_future_tick(src)
    } else {
        convert_stock_tick(src)
    }
}

} // verus!
