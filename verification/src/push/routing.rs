//! Routing of what the push server sends: which handler a response or a
//! pushed record goes to.
//!
//! The payloads themselves are opaque here; a received message is described
//! by its command, its text and, for pushed data, its data type and the
//! kind of body it carries.

use vstd::prelude::*;
use crate::push::proto_message::{Command, DataType};
use crate::text::{contains_str, contains_text};

verus! {

/// The kind of body a pushed record carries.
#[derive(Debug, Clone, Copy, PartialEq, Eq, Structural)]
pub enum PushBody {
    QuoteData,
    QuoteDepthData,
    TradeTickData,
    PositionData,
    AssetData,
    OrderStatusData,
    OrderTransactionData,
    StockTopData,
    OptionTopData,
    KlineData,
    TickData,
}

/// A pushed record: its data type's wire number and its body, if any.
#[derive(Debug, Clone)]
pub struct PushData {
    pub data_type: i32,
    pub body: Option<PushBody>,
}

/// A message of the push server.
#[derive(Debug, Clone)]
pub struct Response {
    /// The command's wire number.
    pub command: i32,
    /// Text sent along (the reason of an error).
    pub msg: Option<String>,
    /// The pushed record, for a MESSAGE.
    pub body: Option<PushData>,
}

/// Where a pushed record goes: the handler for its kind, or the error
/// handler when it has no body.
#[derive(Debug, Clone, Copy, PartialEq, Eq, Structural)]
pub enum PushRoute {
    Quote,
    Option,
    Future,
    QuoteBbo,
    Depth,
    Tick,
    Position,
    Asset,
    Order,
    Transaction,
    StockTop,
    OptionTop,
    Kline,
    FullTick,
    MissingBody,
}

/// Where a record with data type `data_type` and body `body` goes. Quote
/// bodies go by data type: quote, option or future, and best bid/offer for
/// any other type; every other body goes by its kind alone.
pub open spec fn push_route(data_type: int, body: Option<PushBody>) -> PushRoute {
    match body {
        None => PushRoute::MissingBody,
        Some(PushBody::QuoteData) => if data_type == DataType::Quote.code_spec() {
            PushRoute::Quote
        } else if data_type == DataType::Option.code_spec() {
            PushRoute::Option
        } else if data_type == DataType::Future.code_spec() {
            PushRoute::Future
        } else {
            PushRoute::QuoteBbo
        },
        Some(PushBody::QuoteDepthData) => PushRoute::Depth,
        Some(PushBody::TradeTickData) => PushRoute::Tick,
        Some(PushBody::PositionData) => PushRoute::Position,
        Some(PushBody::AssetData) => PushRoute::Asset,
        Some(PushBody::OrderStatusData) => PushRoute::Order,
        Some(PushBody::OrderTransactionData) => PushRoute::Transaction,
        Some(PushBody::StockTopData) => PushRoute::StockTop,
        Some(PushBody::OptionTopData) => PushRoute::OptionTop,
        Some(PushBody::KlineData) => PushRoute::Kline,
        Some(PushBody::TickData) => PushRoute::FullTick,
    }
}

/// The handler a pushed record goes to.
pub fn dispatch_push_data(data_type: i32, body: Option<PushBody>) -> (r: PushRoute)
    ensures
        r == push_route(data_type as int, body),
{
    match body {
        None => PushRoute::MissingBody,
        Some(PushBody::QuoteData) => {
            if data_type == DataType::Quote.code() {
                PushRoute::Quote
            } else if data_type == DataType::Option.code() {
                PushRoute::Option
            } else if data_type == DataType::Future.code() {
                PushRoute::Future
            } else {
                PushRoute::QuoteBbo
            }
        },
        Some(PushBody::QuoteDepthData) => PushRoute::Depth,
        Some(PushBody::TradeTickData) => PushRoute::Tick,
        Some(PushBody::PositionData) => PushRoute::Position,
        Some(PushBody::AssetData) => PushRoute::Asset,
        Some(PushBody::OrderStatusData) => PushRoute::Order,
        Some(PushBody::OrderTransactionData) => PushRoute::Transaction,
        Some(PushBody::StockTopData) => PushRoute::StockTop,
        Some(PushBody::OptionTopData) => PushRoute::OptionTop,
        Some(PushBody::KlineData) => PushRoute::Kline,
        Some(PushBody::TickData) => PushRoute::FullTick,
    }
}

/// What to do with a message of the push server.
#[derive(Debug, Clone, PartialEq, Eq)]
pub enum ResponseAction {
    /// Authentication succeeded: the connection is established.
    Connected,
    /// Nothing to do (heartbeats, messages without a record, unknown
    /// commands).
    Ignore,
    /// Hand the pushed record to this handler.
    Push(PushRoute),
    /// The session was taken over elsewhere; the server's text.
    Kickout(String),
    /// A server-side error, with the text for the error handler.
    Error(String),
    /// The server closed the session.
    Disconnected,
}

/// The text of an ERROR message, or the empty text.
pub open spec fn error_text(msg: Option<String>) -> Seq<char> {
    match msg {
        Some(m) => m@,
        None => Seq::empty(),
    }
}

/// The text handed to the error handler for a record without a body.
pub open spec fn missing_body_message() -> Seq<char> {
    "PushData body is empty"@
}

/// Prefix of the text handed to the error handler for a server error.
pub open spec fn server_error_prefix() -> Seq<char> {
    "服务端错误: "@
}

/// What to do with `response`: CONNECTED establishes the connection,
/// HEARTBEAT is ignored, MESSAGE hands its record on (a record without a
/// body is an error with `missing_body_message`), ERROR is a kick-out
/// when its text contains `kick` and a server error otherwise, DISCONNECT
/// closes; anything else is ignored.
pub open spec fn response_action_ok(response: Response, a: ResponseAction) -> bool {
    let c = response.command as int;
    if c == Command::Connected.code_spec() {
        a == ResponseAction::Connected
    } else if c == Command::Heartbeat.code_spec() {
        a == ResponseAction::Ignore
    } else if c == Command::Message.code_spec() {
        match response.body {
            Some(pd) => if pd.body is None {
                a matches ResponseAction::Error(t) && t@ == missing_body_message()
            } else {
                a == ResponseAction::Push(push_route(pd.data_type as int, pd.body))
            },
            None => a == ResponseAction::Ignore,
        }
    } else if c == Command::Error.code_spec() {
        let m = error_text(response.msg);
        if contains_text(m, "kickout"@) || contains_text(m, "kick"@) {
            a matches ResponseAction::Kickout(t) && t@ == m
        } else {
            a matches ResponseAction::Error(t) && t@ == server_error_prefix() + m
        }
    } else if c == Command::Disconnect.code_spec() {
        a == ResponseAction::Disconnected
    } else {
        a == ResponseAction::Ignore
    }
}

/// What to do with a message of the push server.
pub fn dispatch_response(response: &Response) -> (a: ResponseAction)
    ensures
        response_action_ok(*response, a),
{
    let c = response.command;
    if c == Command::Connected.code() {
        ResponseAction::Connected
    } else if c == Command::Heartbeat.code() {
        ResponseAction::Ignore
    } else if c == Command::Message.code() {
        match &response.body {
            Some(pd) => match dispatch_push_data(pd.data_type, pd.body) {
                PushRoute::MissingBody => {
                    ResponseAction::Error(String::from_str("PushData body is empty"))
                },
                route => ResponseAction::Push(route),
            },
            None => ResponseAction::Ignore,
        }
    } else if c == Command::Error.code() {
        let m: String = match &response.msg {
            Some(t) => t.clone(),
            None => String::new(),
        };
        if contains_str(m.as_str(), "kickout") || contains_str(m.as_str(), "kick") {
            ResponseAction::Kickout(m)
        } else {
            let mut t = String::from_str("服务端错误: ");
            t.append(m.as_str());
            ResponseAction::Error(t)
        }
    } else if c == Command::Disconnect.code() {
        ResponseAction::Disconnected
    } else {
        ResponseAction::Ignore
    }
}

} // verus!
