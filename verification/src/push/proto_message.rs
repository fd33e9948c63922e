//! Requests of the push protocol, and the numbering of requests.
//!
//! Every request carries an id taken from a `RequestIds` counter; ids
//! handed out by one counter strictly increase.

use vstd::prelude::*;
use crate::push::push_message::SubjectType;
use crate::text::owned;

verus! {

/// Commands of the push protocol, numbered as on the wire (`code`).
#[derive(Debug, Clone, Copy, PartialEq, Eq, Structural)]
pub enum Command {
    Unknown,
    Connect,
    Connected,
    Send,
    Subscribe,
    Message,
    Unsubscribe,
    Disconnect,
    Heartbeat,
    Error,
}

impl Command {
    /// The wire number of the command.
    pub open spec fn code_spec(self) -> int {
        match self {
            Command::Unknown => 0,
            Command::Connect => 1,
            Command::Connected => 2,
            Command::Send => 3,
            Command::Subscribe => 4,
            Command::Message => 5,
            Command::Unsubscribe => 6,
            Command::Disconnect => 7,
            Command::Heartbeat => 8,
            Command::Error => 9,
        }
    }

    /// The wire number of the command.
    pub fn code(&self) -> (c: i32)
        ensures
            c == self.code_spec(),
    {
        match self {
            Command::Unknown => 0,
            Command::Connect => 1,
            Command::Connected => 2,
            Command::Send => 3,
            Command::Subscribe => 4,
            Command::Message => 5,
            Command::Unsubscribe => 6,
            Command::Disconnect => 7,
            Command::Heartbeat => 8,
            Command::Error => 9,
        }
    }
}

/// Kinds of pushed data, numbered as on the wire (`code`).
#[derive(Debug, Clone, Copy, PartialEq, Eq, Structural)]
pub enum DataType {
    Unknown,
    Quote,
    Option,
    Future,
    QuoteDepth,
    TradeTick,
    Asset,
    Position,
    OrderStatus,
    OrderTransaction,
    StockTop,
    OptionTop,
    Kline,
}

impl DataType {
    /// The wire number of the data type.
    pub open spec fn code_spec(self) -> int {
        match self {
            DataType::Unknown => 0,
            DataType::Quote => 1,
            DataType::Option => 2,
            DataType::Future => 3,
            DataType::QuoteDepth => 4,
            DataType::TradeTick => 5,
            DataType::Asset => 6,
            DataType::Position => 7,
            DataType::OrderStatus => 8,
            DataType::OrderTransaction => 9,
            DataType::StockTop => 10,
            DataType::OptionTop => 11,
            DataType::Kline => 12,
        }
    }

    /// The wire number of the data type.
    pub fn code(&self) -> (c: i32)
        ensures
            c == self.code_spec(),
    {
        match self {
            DataType::Unknown => 0,
            DataType::Quote => 1,
            DataType::Option => 2,
            DataType::Future => 3,
            DataType::QuoteDepth => 4,
            DataType::TradeTick => 5,
            DataType::Asset => 6,
            DataType::Position => 7,
            DataType::OrderStatus => 8,
            DataType::OrderTransaction => 9,
            DataType::StockTop => 10,
            DataType::OptionTop => 11,
            DataType::Kline => 12,
        }
    }
}

/// The body of a CONNECT request.
#[derive(Debug, Clone)]
pub struct Connect {
    pub tiger_id: String,
    pub sign: String,
    pub sdk_version: String,
    pub accept_version: Option<String>,
    pub send_interval: Option<u32>,
    pub receive_interval: Option<u32>,
    pub use_full_tick: Option<bool>,
}

/// The body of a SUBSCRIBE or UNSUBSCRIBE request.
#[derive(Debug, Clone)]
pub struct Subscribe {
    pub data_type: i32,
    pub symbols: Option<String>,
    pub account: Option<String>,
    pub market: Option<String>,
}

/// A request of the push protocol.
#[derive(Debug, Clone)]
pub struct Request {
    /// The command's wire number.
    pub command: i32,
    /// The request's id.
    pub id: u32,
    pub connect: Option<Connect>,
    pub subscribe: Option<Subscribe>,
}

/// The source of request ids: each id is one more than the last.
#[derive(Debug)]
pub struct RequestIds {
    last: u32,
}

impl View for RequestIds {
    type V = nat;

    /// The last id handed out (0 before the first).
    closed spec fn view(&self) -> nat {
        self.last as nat
    }
}

impl RequestIds {
    /// A counter that has handed out no id yet.
    pub fn new() -> (r: RequestIds)
        ensures
            r@ == 0,
    {
        RequestIds { last: 0 }
    }

    /// Whether another id can be handed out (the counter is 32 bits wide).
    pub fn has_next(&self) -> (b: bool)
        ensures
            b == (self@ < u32::MAX),
    {
        self.last < u32::MAX
    }
}

/// The id that follows `last`.
pub open spec fn next_id(last: nat) -> nat {
    last + 1
}

/// Hands out the next request id: one more than the last.
pub fn next_request_id(ids: &mut RequestIds) -> (id: u32)
    requires
        old(ids)@ < u32::MAX,
    ensures
        id == next_id(old(ids)@),
        final(ids)@ == id,
{
    ids.last = ids.last + 1;
    ids.last
}

/// Ids handed out one after another strictly increase, and none is 0.
pub proof fn law_request_ids_increase(last: nat)
    ensures
        next_id(last) > last,
        next_id(next_id(last)) > next_id(last),
        next_id(last) > 0,
{
}

/// An id handed out later exceeds every id handed out before it, whatever
/// came in between: each builder leaves the counter at the id it gave, so the
/// counter never goes back, and when it stands at `last` after an earlier id
/// `earlier` was given, the next id is larger than `earlier` (and not 0).
pub proof fn law_later_ids_larger(earlier: nat, last: nat)
    requires
        earlier <= last,
    ensures
        next_id(last) > earlier,
        next_id(last) > 0,
{
}

/// Copies an optional text.
fn owned_opt(s: Option<&str>) -> (r: Option<String>)
    ensures
        r.is_some() == s.is_some(),
        r matches Some(v) ==> v@ == s.unwrap()@,
{
    match s {
        Some(t) => Some(owned(t)),
        None => None,
    }
}

/// Whether `o` holds exactly the text of `s`.
pub open spec fn same_text(o: Option<String>, s: Option<&str>) -> bool {
    &&& o.is_some() == s.is_some()
    &&& (o matches Some(v) ==> v@ == s.unwrap()@)
}

/// A CONNECT request carrying the credentials and heartbeat settings.
pub fn build_connect_message(
    ids: &mut RequestIds,
    tiger_id: &str,
    sign: &str,
    sdk_version: &str,
    accept_version: &str,
    send_interval: u32,
    receive_interval: u32,
    use_full_tick: bool,
) -> (r: Request)
    requires
        old(ids)@ < u32::MAX,
    ensures
        r.command == Command::Connect.code_spec(),
        r.id == next_id(old(ids)@),
        final(ids)@ == r.id,
        r.subscribe is None,
        r.connect matches Some(c) && c.tiger_id@ == tiger_id@ && c.sign@ == sign@
            && c.sdk_version@ == sdk_version@ && same_text(c.accept_version, Some(accept_version))
            && c.send_interval == Some(send_interval)
            && c.receive_interval == Some(receive_interval)
            && c.use_full_tick == Some(use_full_tick),
{
    let id = next_request_id(ids);
    Request {
        command: Command::Connect.code(),
        id,
        connect: Some(
            Connect {
                tiger_id: owned(tiger_id),
                sign: owned(sign),
                sdk_version: owned(sdk_version),
                accept_version: Some(owned(accept_version)),
                send_interval: Some(send_interval),
                receive_interval: Some(receive_interval),
                use_full_tick: Some(use_full_tick),
            },
        ),
        subscribe: None,
    }
}

/// A HEARTBEAT request.
pub fn build_heartbeat_message(ids: &mut RequestIds) -> (r: Request)
    requires
        old(ids)@ < u32::MAX,
    ensures
        r.command == Command::Heartbeat.code_spec(),
        r.id == next_id(old(ids)@),
        final(ids)@ == r.id,
        r.connect is None,
        r.subscribe is None,
{
    let id = next_request_id(ids);
    Request { command: Command::Heartbeat.code(), id, connect: None, subscribe: None }
}

/// A SUBSCRIBE request for `data_type` with the given symbols, account and
/// market.
pub fn build_subscribe_message(
    ids: &mut RequestIds,
    data_type: i32,
    symbols: Option<&str>,
    account: Option<&str>,
    market: Option<&str>,
) -> (r: Request)
    requires
        old(ids)@ < u32::MAX,
    ensures
        r.command == Command::Subscribe.code_spec(),
        r.id == next_id(old(ids)@),
        final(ids)@ == r.id,
        r.connect is None,
        r.subscribe matches Some(s) && s.data_type == data_type && same_text(s.symbols, symbols)
            && same_text(s.account, account) && same_text(s.market, market),
{
    let id = next_request_id(ids);
    Request {
        command: Command::Subscribe.code(),
        id,
        connect: None,
        subscribe: Some(
            Subscribe {
                data_type,
                symbols: owned_opt(symbols),
                account: owned_opt(account),
                market: owned_opt(market),
            },
        ),
    }
}

/// An UNSUBSCRIBE request for `data_type` with the given symbols, account
/// and market.
pub fn build_unsubscribe_message(
    ids: &mut RequestIds,
    data_type: i32,
    symbols: Option<&str>,
    account: Option<&str>,
    market: Option<&str>,
) -> (r: Request)
    requires
        old(ids)@ < u32::MAX,
    ensures
        r.command == Command::Unsubscribe.code_spec(),
        r.id == next_id(old(ids)@),
        final(ids)@ == r.id,
        r.connect is None,
        r.subscribe matches Some(s) && s.data_type == data_type && same_text(s.symbols, symbols)
            && same_text(s.account, account) && same_text(s.market, market),
{
    let id = next_request_id(ids);
    Request {
        command: Command::Unsubscribe.code(),
        id,
        connect: None,
        subscribe: Some(
            Subscribe {
                data_type,
                symbols: owned_opt(symbols),
                account: owned_opt(account),
                market: owned_opt(market),
            },
        ),
    }
}

/// A DISCONNECT request.
pub fn build_disconnect_message(ids: &mut RequestIds) -> (r: Request)
    requires
        old(ids)@ < u32::MAX,
    ensures
        r.command == Command::Disconnect.code_spec(),
        r.id == next_id(old(ids)@),
        final(ids)@ == r.id,
        r.connect is None,
        r.subscribe is None,
{
    let id = next_request_id(ids);
    Request { command: Command::Disconnect.code(), id, connect: None, subscribe: None }
}

/// The data type a subject is subscribed under: ticks and full ticks share
/// the trade-tick type, and best-bid/offer quotes the quote type.
pub open spec fn subject_data_type(subject: SubjectType) -> DataType {
    match subject {
        SubjectType::Quote => DataType::Quote,
        SubjectType::Option => DataType::Option,
        SubjectType::Future => DataType::Future,
        SubjectType::Depth => DataType::QuoteDepth,
        SubjectType::Tick => DataType::TradeTick,
        SubjectType::FullTick => DataType::TradeTick,
        SubjectType::Asset => DataType::Asset,
        SubjectType::Position => DataType::Position,
        SubjectType::Order => DataType::OrderStatus,
        SubjectType::Transaction => DataType::OrderTransaction,
        SubjectType::StockTop => DataType::StockTop,
        SubjectType::OptionTop => DataType::OptionTop,
        SubjectType::Kline => DataType::Kline,
        SubjectType::QuoteBbo => DataType::Quote,
    }
}

/// The wire number of the data type `subject` is subscribed under.
pub fn subject_to_data_type(subject: &SubjectType) -> (c: i32)
    ensures
        c == subject_data_type(*subject).code_spec(),
{
    let t = match subject {
        SubjectType::Quote => DataType::Quote,
        SubjectType::Option => DataType::Option,
        SubjectType::Future => DataType::Future,
        SubjectType::Depth => DataType::QuoteDepth,
        SubjectType::Tick => DataType::TradeTick,
        SubjectType::FullTick => DataType::TradeTick,
        SubjectType::Asset => DataType::Asset,
        SubjectType::Position => DataType::Position,
        SubjectType::Order => DataType::OrderStatus,
        SubjectType::Transaction => DataType::OrderTransaction,
        SubjectType::StockTop => DataType::StockTop,
        SubjectType::OptionTop => DataType::OptionTop,
        SubjectType::Kline => DataType::Kline,
        SubjectType::QuoteBbo => DataType::Quote,
    };
    t.code()
}

} // verus!
