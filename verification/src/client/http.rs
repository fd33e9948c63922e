//! The decisions of the HTTP client: argument checks, the common request
//! parameters, where and with what token a request goes, how often and
//! after how long a failed request is tried again, how the token-refresh
//! reply is read, and the token manager set up for automatic refresh.
//!
//! Signing, the HTTP exchange, the clock and the background task are the
//! caller's.

use vstd::prelude::*;
use crate::client::retry::{backoff_nanos, trade_operation, RetryPolicy};
use crate::config::client_config::ClientConfig;
use crate::config::config_parser::{insert_entry, Properties};
use crate::config::token_manager::{clamp_refresh, normalize_interval, TokenManager, TokenState};
use crate::duration::Duration;
use crate::error::TigerError;
use crate::numtext::{decimal, push_decimal};
use crate::text::{chars_of, owned, string_of};

verus! {

/// Name for whether `text` is a JSON document (serde_json reads it as a
/// value).
pub uninterp spec fn json_text(text: Seq<char>) -> bool;

/// Whether `text` is a JSON document (`serde_json::from_str::<Value>`
/// succeeds). The result is named: `json_text` of the text.
#[verifier::external_body]
fn is_json_text(text: &str) -> (b: bool)
    ensures
        b == json_text(text@),
{
    serde_json::from_str::<serde_json::Value>(text).is_ok()
}

/// The error for an empty method name.
pub open spec fn empty_method_message() -> Seq<char> {
    "api_method 不能为空"@
}

/// The error for a body that is not JSON.
pub open spec fn invalid_json_message() -> Seq<char> {
    "request_json 不是有效的 JSON"@
}

/// Checks the arguments of a raw API call: the method name must not be
/// empty, and the body must be a JSON document.
pub fn validate_execute_args(api_method: &str, request_json: &str) -> (r: Result<(), TigerError>)
    ensures
        api_method@.len() == 0 ==> (r matches Err(TigerError::Config(m)) && m@
            == empty_method_message()),
        api_method@.len() > 0 && !json_text(request_json@) ==> (r matches Err(TigerError::Config(m))
            && m@ == invalid_json_message()),
        api_method@.len() > 0 && json_text(request_json@) ==> r is Ok,
{
    if api_method.is_empty() {
        return Err(TigerError::Config(owned("api_method 不能为空")));
    }
    if !is_json_text(request_json) {
        return Err(TigerError::Config(owned("request_json 不是有效的 JSON")));
    }
    Ok(())
}

/// The User-Agent header: `openapi-rust-sdk-` and the SDK version.
pub fn user_agent(version: &str) -> (s: String)
    ensures
        s@ == "openapi-rust-sdk-"@ + version@,
{
    let mut s = String::from_str("openapi-rust-sdk-");
    s.append(version);
    s
}

/// The parameters every request carries, in the order they are set:
/// `tiger_id`, `method`, `charset` (`UTF-8`), `sign_type` (`RSA`),
/// `timestamp`, `version` (`2.0` unless given), `biz_content`, and
/// `device_id` when there is one.
pub open spec fn common_params_spec(
    tiger_id: Seq<char>,
    device_id: Seq<char>,
    method: Seq<char>,
    biz_content: Seq<char>,
    version: Option<Seq<char>>,
    timestamp: Seq<char>,
) -> Seq<(Seq<char>, Seq<char>)> {
    let e0 = Seq::<(Seq<char>, Seq<char>)>::empty();
    let e1 = insert_entry(e0, "tiger_id"@, tiger_id);
    let e2 = insert_entry(e1, "method"@, method);
    let e3 = insert_entry(e2, "charset"@, "UTF-8"@);
    let e4 = insert_entry(e3, "sign_type"@, "RSA"@);
    let e5 = insert_entry(e4, "timestamp"@, timestamp);
    let e6 = insert_entry(
        e5,
        "version"@,
        match version {
            Some(v) => v,
            None => "2.0"@,
        },
    );
    let e7 = insert_entry(e6, "biz_content"@, biz_content);
    if device_id.len() > 0 {
        insert_entry(e7, "device_id"@, device_id)
    } else {
        e7
    }
}

/// The common parameters of a request of `api_method` with `biz_content`,
/// made at `timestamp` (local time, `%Y-%m-%d %H:%M:%S`).
pub fn build_common_params(
    config: &ClientConfig,
    api_method: &str,
    biz_content: &str,
    version: Option<&str>,
    timestamp: &str,
) -> (p: Properties)
    ensures
        p@ == common_params_spec(
            config.tiger_id@,
            config.device_id@,
            api_method@,
            biz_content@,
            match version {
                Some(v) => Some(v@),
                None => None,
            },
            timestamp@,
        ),
{
    let mut p = Properties::new();
    p.insert(owned("tiger_id"), config.tiger_id.clone());
    p.insert(owned("method"), owned(api_method));
    p.insert(owned("charset"), owned("UTF-8"));
    p.insert(owned("sign_type"), owned("RSA"));
    p.insert(owned("timestamp"), owned(timestamp));
    let v = match version {
        Some(v) => owned(v),
        None => owned("2.0"),
    };
    p.insert(owned("version"), v);
    p.insert(owned("biz_content"), owned(biz_content));
    if !config.device_id.as_str().is_empty() {
        p.insert(owned("device_id"), config.device_id.clone());
    }
    p
}

/// Where requests go: the override (the quote gateway, for a quote
/// client), else the configured server.
pub fn request_url(config: &ClientConfig, url_override: Option<&str>) -> (u: String)
    ensures
        u@ == match url_override {
            Some(o) => o@,
            None => config.server_url@,
        },
{
    match url_override {
        Some(o) => owned(o),
        None => config.server_url.clone(),
    }
}

/// The `Authorization` header: the token, when there is a non-empty one.
pub fn authorization(config: &ClientConfig) -> (a: Option<String>)
    ensures
        match config.token {
            Some(t) => if t@.len() > 0 {
                a matches Some(x) && x@ == t@
            } else {
                a is None
            },
            None => a is None,
        },
{
    match &config.token {
        Some(t) => if t.as_str().is_empty() {
            None
        } else {
            Some(t.clone())
        },
        None => None,
    }
}

/// How many times a call of `method` is tried at most: once for a trading
/// operation, otherwise once plus the allowed retries.
pub open spec fn max_attempts_spec(max_retries: int, method: Seq<char>) -> int {
    if trade_operation(method) {
        1
    } else {
        max_retries + 1
    }
}

impl RetryPolicy {
    /// How many times a call of `api_method` is tried at most.
    pub fn max_attempts(&self, api_method: &str) -> (n: u64)
        ensures
            n == max_attempts_spec(self.max_retries as int, api_method@),
    {
        if self.should_retry(api_method) {
            self.max_retries as u64 + 1
        } else {
            1
        }
    }

    /// After try number `failed_attempt` (counting from 0) of `api_method`
    /// failed, `elapsed` after the first began: the wait before the next
    /// try, or none when the call gives up (a trading operation, no tries
    /// left, or the wait would pass the total retry time).
    pub fn next_attempt(&self, api_method: &str, failed_attempt: u32, elapsed: Duration) -> (w:
        Option<Duration>)
        ensures
            match w {
                Some(d) => {
                    &&& !trade_operation(api_method@)
                    &&& failed_attempt + 1 < max_attempts_spec(self.max_retries as int, api_method@)
                    &&& d@ == backoff_nanos(self.base_delay@, self.max_delay@, failed_attempt as nat)
                    &&& elapsed@ + d@ <= self.max_retry_time@
                },
                None => trade_operation(api_method@) || failed_attempt + 1 >= max_attempts_spec(
                    self.max_retries as int,
                    api_method@,
                ) || elapsed@ + backoff_nanos(
                    self.base_delay@,
                    self.max_delay@,
                    failed_attempt as nat,
                ) > self.max_retry_time@,
            },
    {
        if !self.should_retry(api_method) {
            return None;
        }
        if failed_attempt as u64 + 1 >= self.max_attempts(api_method) {
            return None;
        }
        let backoff = self.calculate_backoff(failed_attempt);
        if elapsed.as_nanos() + backoff.as_nanos() > self.max_retry_time.as_nanos() {
            return None;
        }
        Some(backoff)
    }
}

/// A trading operation is tried once: it is never given a retry.
pub proof fn law_trade_operations_not_retried(
    policy: RetryPolicy,
    method: Seq<char>,
    failed_attempt: nat,
)
    requires
        trade_operation(method),
    ensures
        failed_attempt + 1 >= max_attempts_spec(policy.max_retries as int, method),
{
}

/// The decimal text of an integer (a `-` before negative ones).
pub open spec fn int_text(v: int) -> Seq<char> {
    if v < 0 {
        seq!['-'] + decimal((-v) as nat)
    } else {
        decimal(v as nat)
    }
}

/// The decimal text of `v`.
pub fn i64_text(v: i64) -> (s: String)
    ensures
        s@ == int_text(v as int),
{
    let mut out: Vec<char> = Vec::new();
    if v < 0 {
        out.push('-');
        let m = (0 - (v as i128)) as u64;
        push_decimal(&mut out, m);
    } else {
        push_decimal(&mut out, v as u64);
    }
    string_of(&out)
}

/// Prefix of the error for a token-refresh reply with an error code.
pub open spec fn refresh_error_prefix() -> Seq<char> {
    "token 刷新接口返回错误: code="@
}

/// The error for a token-refresh reply without a token.
pub open spec fn empty_token_message() -> Seq<char> {
    "服务端返回空 token"@
}

/// A token-refresh reply's `data` field, as far as the token goes.
pub enum ReplyData {
    /// The reply has no `data` field.
    Missing,
    /// `data` is a value; its `token` text, if it has one.
    Value(Option<String>),
    /// `data` is JSON text (the value sent encoded twice); what reading that
    /// text gives: none when it is not JSON, else its `token` text, if any.
    Encoded(Option<Option<String>>),
}

/// The token a reply's `data` holds: the `token` text of the value, or of
/// the value that JSON text in `data` encodes; empty when there is none.
pub open spec fn reply_data_token(d: ReplyData) -> Seq<char> {
    match d {
        ReplyData::Value(Some(t)) => t@,
        ReplyData::Encoded(Some(Some(t))) => t@,
        _ => Seq::empty(),
    }
}

/// The token a reply's `data` holds (empty when none).
pub fn token_in_reply_data(d: ReplyData) -> (t: String)
    ensures
        t@ == reply_data_token(d),
{
    match d {
        ReplyData::Value(Some(t)) => t,
        ReplyData::Encoded(Some(Some(t))) => t,
        _ => String::new(),
    }
}

/// `r` is what a token-refresh reply with `code`, `message` and token text
/// `t` gives: a code other than 0 (missing counts as -1) is an error naming
/// the code and the message (`unknown` when missing); an empty token is an
/// error too; otherwise the token.
pub open spec fn token_reply_outcome(
    code: Option<i64>,
    message: Option<Seq<char>>,
    t: Seq<char>,
    r: Result<String, TigerError>,
) -> bool {
    let c = match code {
        Some(c) => c as int,
        None => -1,
    };
    let m = match message {
        Some(m) => m,
        None => "unknown"@,
    };
    &&& c != 0 ==> (r matches Err(TigerError::Config(e)) && e@ == refresh_error_prefix() + int_text(c)
        + ", message="@ + m)
    &&& c == 0 && t.len() == 0 ==> (r matches Err(TigerError::Config(e)) && e@
        == empty_token_message())
    &&& c == 0 && t.len() > 0 ==> (r matches Ok(x) && x@ == t)
}

/// What a token-refresh reply gives: its `code` (missing counts as -1),
/// its `message` and the token in its data. A code other than 0 is an
/// error naming the code and the message (`unknown` when missing); an
/// empty or missing token is an error too.
pub fn token_from_reply(code: Option<i64>, message: Option<&str>, token: Option<&str>) -> (r:
    Result<String, TigerError>)
    ensures
        token_reply_outcome(
            code,
            crate::config::domain::opt_text(message),
            match token {
                Some(t) => t@,
                None => Seq::<char>::empty(),
            },
            r,
        ),
{
    let c: i64 = match code {
        Some(c) => c,
        None => -1,
    };
    if c != 0 {
        let mut e = String::from_str("token 刷新接口返回错误: code=");
        let num = i64_text(c);
        e.append(num.as_str());
        e.append(", message=");
        match message {
            Some(m) => e.append(m),
            None => e.append("unknown"),
        }
        return Err(TigerError::Config(e));
    }
    let t: &str = match token {
        Some(t) => t,
        None => "",
    };
    proof {
        reveal_strlit("");
    }
    if t.is_empty() {
        return Err(TigerError::Config(owned("服务端返回空 token")));
    }
    Ok(owned(t))
}

/// The token manager an HTTP client sets up for automatic refresh: only
/// when the configured refresh threshold is set and not zero; in memory
/// only, with the threshold in whole seconds (raised to 30 when below),
/// the configured check interval (300 seconds when unset or zero), and
/// the configured token when there is a non-empty one.
pub fn auto_refresh_manager(config: &ClientConfig) -> (m: Option<TokenManager>)
    ensures
        match config.token_refresh_duration {
            Some(d) => if d@ == 0 {
                m is None
            } else {
                m matches Some(tm) && tm@ == (TokenState {
                    token: match config.token {
                        Some(t) => t@,
                        None => Seq::empty(),
                    },
                    file_path: TokenManager::initial(None, false, 0).file_path,
                    file_enabled: false,
                    refresh_duration: clamp_refresh((d@ / 1_000_000_000) as i64 as int),
                    check_interval_secs: normalize_interval(
                        match config.token_check_interval {
                            Some(c) => (c@ / 1_000_000_000) as int,
                            None => 300,
                        },
                    ),
                })
            },
            None => m is None,
        },
{
    let d = match config.token_refresh_duration {
        Some(d) => d,
        None => return None,
    };
    if d.is_zero() {
        return None;
    }
    let interval_secs: u64 = match config.token_check_interval {
        Some(c) => c.as_secs(),
        None => 300,
    };
    let refresh_secs = d.as_secs() as i64;
    let mut tm = TokenManager::with_refresh_duration(None, refresh_secs);
    tm.set_check_interval(interval_secs);
    match &config.token {
        Some(t) => {
            if !t.as_str().is_empty() {
                let _ = tm.set_token(t.as_str());
            } else {
                assert(t@ =~= Seq::<char>::empty());
            }
        },
        None => {},
    }
    Some(tm)
}


/// A token-refresh reply's `data` field as it arrives.
pub enum TokenData {
    /// There is no `data` field.
    Missing,
    /// `data` is a value other than text; its `token` text, if any.
    Value(Option<String>),
    /// `data` is text (a JSON value encoded once more).
    Text(String),
}

/// A `data` field as plain values.
pub enum TokenDataView {
    Missing,
    Value(Option<Seq<char>>),
    Text(Seq<char>),
}

impl View for TokenData {
    type V = TokenDataView;

    open spec fn view(&self) -> TokenDataView {
        match self {
            TokenData::Missing => TokenDataView::Missing,
            TokenData::Value(Some(t)) => TokenDataView::Value(Some(t@)),
            TokenData::Value(None) => TokenDataView::Value(None),
            TokenData::Text(s) => TokenDataView::Text(s@),
        }
    }
}

/// The fields of a token-refresh reply.
pub struct TokenReply {
    pub code: Option<i64>,
    pub message: Option<String>,
    pub data: TokenData,
}

/// A token-refresh reply's fields as plain values.
pub struct TokenReplyView {
    pub code: Option<i64>,
    pub message: Option<Seq<char>>,
    pub data: TokenDataView,
}

impl View for TokenReply {
    type V = TokenReplyView;

    open spec fn view(&self) -> TokenReplyView {
        TokenReplyView {
            code: self.code,
            message: match self.message {
                Some(m) => Some(m@),
                None => None,
            },
            data: self.data@,
        }
    }
}

/// Name for what serde_json reads from a token-refresh reply `body`: its
/// `code` (when an integer), `message` (when text) and `data` field, or the
/// text of serde_json's error when the body is no JSON.
pub uninterp spec fn token_reply_fields(body: Seq<u8>) -> Result<TokenReplyView, Seq<char>>;

/// Reads a token-refresh reply with serde_json (`from_slice` into a
/// `Value`, then its `code`, `message` and `data` fields). The result is
/// named: `token_reply_fields` of the body.
#[verifier::external_body]
fn read_token_reply(body: &[u8]) -> (r: Result<TokenReply, String>)
    ensures
        match token_reply_fields(body@) {
            Ok(f) => r matches Ok(x) && x@ == f,
            Err(e) => r matches Err(m) && m@ == e,
        },
{
    let json: serde_json::Value = serde_json::from_slice(body).map_err(|e| e.to_string())?;
    let data = match json.get("data") {
        None => TokenData::Missing,
        Some(serde_json::Value::String(s)) => TokenData::Text(s.clone()),
        Some(d) => TokenData::Value(d.get("token").and_then(|t| t.as_str()).map(|t| t.to_string())),
    };
    let code = json.get("code").and_then(|v| v.as_i64());
    let message = json.get("message").and_then(|v| v.as_str()).map(|m| m.to_string());
    Ok(TokenReply { code, message, data })
}

/// Name for what serde_json reads from JSON text `text`: none when it is no
/// JSON, else its `token` text, if any.
pub uninterp spec fn encoded_token(text: Seq<char>) -> Option<Option<Seq<char>>>;

/// Reads JSON text with serde_json (`from_str` into a `Value`) and picks its
/// `token` text. The result is named: `encoded_token` of the text.
#[verifier::external_body]
fn read_encoded_token(text: &str) -> (r: Option<Option<String>>)
    ensures
        match encoded_token(text@) {
            None => r is None,
            Some(None) => r == Some(None::<String>),
            Some(Some(t)) => r matches Some(Some(x)) && x@ == t,
        },
{
    let v: serde_json::Value = serde_json::from_str(text).ok()?;
    Some(v.get("token").and_then(|t| t.as_str()).map(|t| t.to_string()))
}

/// The token a `data` field holds: the `token` text of its value, or of the
/// value that its text encodes; empty when there is none.
pub open spec fn data_token(d: TokenDataView) -> Seq<char> {
    match d {
        TokenDataView::Value(Some(t)) => t,
        TokenDataView::Text(s) => match encoded_token(s) {
            Some(Some(t)) => t,
            _ => Seq::empty(),
        },
        _ => Seq::empty(),
    }
}

/// The token a `data` field holds (empty when none); text is read as JSON
/// once more.
pub fn token_of_data(d: TokenData) -> (t: String)
    ensures
        t@ == data_token(d@),
{
    match d {
        TokenData::Missing => token_in_reply_data(ReplyData::Missing),
        TokenData::Value(v) => token_in_reply_data(ReplyData::Value(v)),
        TokenData::Text(s) => {
            let inner = read_encoded_token(s.as_str());
            token_in_reply_data(ReplyData::Encoded(inner))
        },
    }
}

/// Prefix of the error for a token-refresh reply that is no JSON.
pub open spec fn token_reply_parse_prefix() -> Seq<char> {
    "解析 token 响应失败: "@
}

/// What the body of a token-refresh reply gives: a body that is no JSON is
/// a configuration error with serde_json's reason; otherwise as
/// `token_from_reply` reads its code, message and the token of its `data`.
pub fn token_from_reply_body(body: &[u8]) -> (r: Result<String, TigerError>)
    ensures
        match token_reply_fields(body@) {
            Err(e) => r matches Err(TigerError::Config(m)) && m@ == token_reply_parse_prefix() + e,
            Ok(f) => token_reply_outcome(f.code, f.message, data_token(f.data), r),
        },
{
    match read_token_reply(body) {
        Err(e) => {
            let mut m = String::from_str("解析 token 响应失败: ");
            m.append(e.as_str());
            Err(TigerError::Config(m))
        },
        Ok(reply) => {
            let token = token_of_data(reply.data);
            match reply.message {
                Some(msg) => token_from_reply(reply.code, Some(msg.as_str()), Some(token.as_str())),
                None => token_from_reply(reply.code, None, Some(token.as_str())),
            }
        },
    }
}


/// Name for what serde_json reads from a reply `body`: its `sign` field
/// when that is text, or the text of serde_json's error when the body is no
/// JSON.
pub uninterp spec fn reply_sign_field(body: Seq<u8>) -> Result<Option<Seq<char>>, Seq<char>>;

/// Reads a reply's `sign` field with serde_json (`from_slice` into a
/// `Value`). The result is named: `reply_sign_field` of the body.
#[verifier::external_body]
fn read_reply_sign(body: &[u8]) -> (r: Result<Option<String>, String>)
    ensures
        match reply_sign_field(body@) {
            Ok(None) => r == Ok::<Option<String>, String>(None),
            Ok(Some(t)) => r matches Ok(Some(x)) && x@ == t,
            Err(e) => r matches Err(m) && m@ == e,
        },
{
    let json: serde_json::Value = serde_json::from_slice(body).map_err(|e| e.to_string())?;
    Ok(json.get("sign").and_then(|s| s.as_str()).map(|s| s.to_string()))
}

/// Prefix of the error for a reply that is no JSON when its signature is
/// checked.
pub open spec fn sign_parse_prefix() -> Seq<char> {
    "failed to parse response JSON for sign verification: "@
}

/// The signature of a reply that is to be checked: its non-empty `sign`
/// text; none when it carries no signature; a configuration error when the
/// body is no JSON.
pub fn reply_sign(body: &[u8]) -> (r: Result<Option<String>, TigerError>)
    ensures
        match reply_sign_field(body@) {
            Err(e) => r matches Err(TigerError::Config(m)) && m@ == sign_parse_prefix() + e,
            Ok(Some(t)) => if t.len() > 0 {
                r matches Ok(Some(x)) && x@ == t
            } else {
                r matches Ok(None)
            },
            Ok(None) => r matches Ok(None),
        },
{
    match read_reply_sign(body) {
        Err(e) => {
            let mut m = String::from_str("failed to parse response JSON for sign verification: ");
            m.append(e.as_str());
            Err(TigerError::Config(m))
        },
        Ok(Some(t)) => {
            proof {
                reveal_strlit("");
            }
            if t.as_str().is_empty() {
                Ok(None)
            } else {
                Ok(Some(t))
            }
        },
        Ok(None) => Ok(None),
    }
}

} // verus!
