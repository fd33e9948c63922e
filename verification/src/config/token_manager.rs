//! Token bookkeeping: loading the licence token (from a custom loader or
//! from `tiger_openapi_token.properties`), storing it, the file it is
//! written to, and when it is due for a refresh.
//!
//! A token is base64 text; its first 27 decoded bytes are a header
//! `gen_ts_ms,expire_ts_ms`. It is due for a refresh once more than the
//! refresh threshold has passed since `gen_ts_ms`.
//!
//! Reading and writing the file, the clock and the callbacks are the
//! caller's: loading takes what the loader or the file gave, and storing
//! a token gives back the text to write when the file is in use.

use base64::Engine;
use vstd::prelude::*;
use crate::config::config_parser::{entries_map, parse_properties, parsed_entries};
use crate::error::TigerError;
use crate::numtext::{i64_value, parse_i64};
use crate::text::{char_index, chars_of, find_char, owned, trim, trim_bounds};

verus! {

/// Default check interval of the background refresh, in seconds.
pub const DEFAULT_CHECK_INTERVAL_SECS: u64 = 300;

/// The token file used when none is named.
pub open spec fn default_token_file() -> Seq<char> {
    "tiger_openapi_token.properties"@
}

/// Name for what base64 decoding (standard alphabet, with padding) gives
/// for `text`: the bytes, or none when `text` is not valid base64.
pub uninterp spec fn base64_standard_decode(text: Seq<char>) -> Option<Seq<u8>>;

/// Name for what UTF-8 decoding gives for `bytes`: the characters, or none
/// when `bytes` is not valid UTF-8.
pub uninterp spec fn utf8_decode(bytes: Seq<u8>) -> Option<Seq<char>>;

/// Decodes base64 text with the standard alphabet (base64's
/// `general_purpose::STANDARD.decode`). The result is named, not stated:
/// it is `base64_standard_decode` of the text.
#[verifier::external_body]
fn decode_base64(text: &str) -> (r: Option<Vec<u8>>)
    ensures
        match base64_standard_decode(text@) {
            Some(b) => r matches Some(v) && v@ == b,
            None => r is None,
        },
{
    base64::engine::general_purpose::STANDARD.decode(text).ok()
}

/// Reads `bytes` as UTF-8 (std's `str::from_utf8`). The result is named:
/// it is `utf8_decode` of the bytes.
#[verifier::external_body]
fn decode_utf8(bytes: &[u8]) -> (r: Option<String>)
    ensures
        match utf8_decode(bytes@) {
            Some(t) => r matches Some(s) && s@ == t,
            None => r is None,
        },
{
    match std::str::from_utf8(bytes) {
        Ok(s) => Some(s.to_owned()),
        Err(_) => None,
    }
}

/// Rust's `/` on integers: the quotient rounded toward zero.
pub open spec fn trunc_div(a: int, b: int) -> int {
    if a >= 0 {
        a / b
    } else {
        -((-a) / b)
    }
}

/// The generation time (milliseconds) in a token header: the text before
/// the first comma, trimmed, read as an `i64`; none without a comma or
/// when it does not read.
pub open spec fn header_gen_ms(header: Seq<char>) -> Option<int> {
    match char_index(header, ',') {
        Some(i) => i64_value(trim(header.subrange(0, i))),
        None => None,
    }
}

/// Whether a token with header `header` is due: more than
/// `refresh_duration` seconds have passed between its generation and
/// `now_secs`.
pub open spec fn header_due(header: Seq<char>, refresh_duration: int, now_secs: int) -> bool {
    match header_gen_ms(header) {
        Some(g) => now_secs - trunc_div(g, 1000) > refresh_duration,
        None => false,
    }
}

/// Whether `token` is due for a refresh at `now_secs`: its base64 decodes
/// to at least 27 bytes, those bytes are UTF-8, and the header they form is
/// due; any failure on the way means not due.
pub open spec fn token_due(token: Seq<char>, refresh_duration: int, now_secs: int) -> bool {
    match base64_standard_decode(token) {
        Some(bytes) => bytes.len() >= 27 && match utf8_decode(bytes.subrange(0, 27)) {
            Some(header) => header_due(header, refresh_duration, now_secs),
            None => false,
        },
        None => false,
    }
}

/// Whether a token with header `header` is due at `now_secs`.
pub fn header_refresh_due(header: &str, refresh_duration: i64, now_secs: i64) -> (b: bool)
    ensures
        b == header_due(header@, refresh_duration as int, now_secs as int),
{
    let v = chars_of(header);
    let comma = match find_char(&v, ',') {
        Some(i) => i,
        None => return false,
    };
    proof {
        crate::text::lemma_char_index(header@, ',');
    }
    let (lo, hi) = trim_bounds(&v, 0, comma);
    assert(v@.subrange(0, comma as int) == header@.subrange(0, comma as int));
    let g = match parse_i64(&v, lo, hi) {
        Some(g) => g,
        None => return false,
    };
    let g128 = g as i128;
    let secs: i128 = if g128 >= 0 {
        g128 / 1000
    } else {
        -((-g128) / 1000)
    };
    (now_secs as i128) - secs > refresh_duration as i128
}

/// Whether `token` is due for a refresh at `now_secs` (Unix seconds).
pub fn should_refresh_token(token: &str, refresh_duration: i64, now_secs: i64) -> (b: bool)
    ensures
        b == token_due(token@, refresh_duration as int, now_secs as int),
{
    let decoded = match decode_base64(token) {
        Some(d) => d,
        None => return false,
    };
    if decoded.len() < 27 {
        return false;
    }
    let mut first: Vec<u8> = Vec::new();
    let mut i: usize = 0;
    while i < 27
        invariant
            decoded@.len() >= 27,
            i <= 27,
            first@ == decoded@.subrange(0, i as int),
        decreases 27 - i,
    {
        first.push(decoded[i]);
        assert(decoded@.subrange(0, i + 1) =~= decoded@.subrange(0, i as int).push(decoded@[i as int]));
        i = i + 1;
    }
    let header = match decode_utf8(first.as_slice()) {
        Some(h) => h,
        None => return false,
    };
    header_refresh_due(header.as_str(), refresh_duration, now_secs)
}

/// A refresh threshold as stored: a positive threshold below 30 seconds is
/// raised to 30; zero (never refresh) and other values stay.
pub open spec fn clamp_refresh(secs: int) -> int {
    if 0 < secs < 30 {
        30
    } else {
        secs
    }
}

/// A check interval as stored: zero means the default of 300 seconds.
pub open spec fn normalize_interval(secs: int) -> int {
    if secs == 0 {
        DEFAULT_CHECK_INTERVAL_SECS as int
    } else {
        secs
    }
}

/// The text of a token file holding `token`: `token=<token>` and a line
/// break.
pub open spec fn token_file_text(token: Seq<char>) -> Seq<char> {
    "token="@ + token + "\n"@
}

/// The text written to the token file for `token`.
pub fn token_file_content(token: &str) -> (s: String)
    ensures
        s@ == token_file_text(token@),
{
    let mut s = String::from_str("token=");
    s.append(token);
    s.append("\n");
    s
}

/// What a token load got: the custom loader's result (its error as text),
/// or the token file's text (or the error of reading it).
pub enum TokenSource {
    Loader(Result<String, String>),
    File(Result<String, TigerError>),
}

/// The token a file's text holds: its `token` property.
pub open spec fn file_token(content: Seq<char>) -> Option<Seq<char>> {
    let m = entries_map(parsed_entries(content));
    if m.contains_key("token"@) {
        Some(m["token"@])
    } else {
        None
    }
}

/// The token loading a file's text gives: its non-empty `token` property.
pub open spec fn file_loaded_token(content: Seq<char>) -> Option<Seq<char>> {
    match file_token(content) {
        Some(t) => if t.len() > 0 {
            Some(t)
        } else {
            None
        },
        None => None,
    }
}

/// Prefix of the error for a failing custom loader.
pub open spec fn loader_failed_prefix() -> Seq<char> {
    "自定义 token 加载失败: "@
}

/// The error for a custom loader that gave an empty token.
pub open spec fn loader_empty_message() -> Seq<char> {
    "自定义 token 加载返回空值"@
}

/// The error for a token file without a token.
pub open spec fn file_no_token_message() -> Seq<char> {
    "Token 文件中未找到 token 字段"@
}

/// The state of a token manager, as plain values.
pub struct TokenState {
    pub token: Seq<char>,
    pub file_path: Seq<char>,
    pub file_enabled: bool,
    pub refresh_duration: int,
    pub check_interval_secs: int,
}

/// The token, where it is persisted, and when it is refreshed.
pub struct TokenManager {
    token: String,
    file_path: String,
    file_enabled: bool,
    refresh_duration: i64,
    check_interval_secs: u64,
}

impl View for TokenManager {
    type V = TokenState;

    closed spec fn view(&self) -> TokenState {
        TokenState {
            token: self.token@,
            file_path: self.file_path@,
            file_enabled: self.file_enabled,
            refresh_duration: self.refresh_duration as int,
            check_interval_secs: self.check_interval_secs as int,
        }
    }
}

impl TokenManager {
    /// The state of a fresh manager.
    pub open spec fn initial(file_path: Option<Seq<char>>, file_enabled: bool, refresh: int) -> TokenState {
        TokenState {
            token: Seq::empty(),
            file_path: match file_path {
                Some(p) => p,
                None => default_token_file(),
            },
            file_enabled,
            refresh_duration: refresh,
            check_interval_secs: DEFAULT_CHECK_INTERVAL_SECS as int,
        }
    }

    fn with_options(file_path: Option<&str>, file_enabled: bool, refresh_duration: i64) -> (m: Self)
        ensures
            m@ == TokenManager::initial(
                crate::config::domain::opt_text(file_path),
                file_enabled,
                refresh_duration as int,
            ),
    {
        let path = match file_path {
            Some(p) => owned(p),
            None => owned("tiger_openapi_token.properties"),
        };
        TokenManager {
            token: String::new(),
            file_path: path,
            file_enabled,
            refresh_duration,
            check_interval_secs: DEFAULT_CHECK_INTERVAL_SECS,
        }
    }

    /// A manager that keeps the token in memory only and never refreshes.
    pub fn new() -> (m: Self)
        ensures
            m@ == TokenManager::initial(None, false, 0),
    {
        Self::with_options(None, false, 0)
    }

    /// A manager persisting the token to `file_path`.
    pub fn with_file_path(file_path: &str) -> (m: Self)
        ensures
            m@ == TokenManager::initial(Some(file_path@), true, 0),
    {
        Self::with_options(Some(file_path), true, 0)
    }

    /// A manager with a refresh threshold (raised to at least 30 seconds
    /// when positive), persisting to `file_path` when one is given.
    pub fn with_refresh_duration(file_path: Option<&str>, refresh_duration_secs: i64) -> (m: Self)
        ensures
            m@ == TokenManager::initial(
                crate::config::domain::opt_text(file_path),
                file_path.is_some(),
                clamp_refresh(refresh_duration_secs as int),
            ),
    {
        let dur = if refresh_duration_secs > 0 && refresh_duration_secs < 30 {
            30
        } else {
            refresh_duration_secs
        };
        Self::with_options(file_path, file_path.is_some(), dur)
    }

    /// Sets the refresh threshold (raised to at least 30 seconds when
    /// positive; 0 turns refreshing off).
    pub fn set_refresh_duration(&mut self, secs: i64)
        ensures
            final(self)@ == (TokenState { refresh_duration: clamp_refresh(secs as int), ..old(self)@ }),
    {
        self.refresh_duration = if secs > 0 && secs < 30 {
            30
        } else {
            secs
        };
    }

    /// Sets the background check interval (0 means the default).
    pub fn set_check_interval(&mut self, secs: u64)
        ensures
            final(self)@ == (TokenState {
                check_interval_secs: normalize_interval(secs as int),
                ..old(self)@
            }),
    {
        self.check_interval_secs = if secs == 0 {
            DEFAULT_CHECK_INTERVAL_SECS
        } else {
            secs
        };
    }

    /// The current token.
    pub fn get_token(&self) -> (t: String)
        ensures
            t@ == self@.token,
    {
        self.token.clone()
    }

    /// The file the token is persisted to.
    pub fn file_path(&self) -> (p: &String)
        ensures
            p@ == self@.file_path,
    {
        &self.file_path
    }

    /// The background check interval, in seconds.
    pub fn check_interval_secs(&self) -> (s: u64)
        ensures
            s == self@.check_interval_secs,
    {
        self.check_interval_secs
    }

    /// Replaces the token in memory only.
    pub fn sync_token(&mut self, token: &str)
        ensures
            final(self)@ == (TokenState { token: token@, ..old(self)@ }),
    {
        self.token = owned(token);
    }

    /// Stores `token`; gives back the text to write to the token file when
    /// the file is in use.
    pub fn set_token(&mut self, token: &str) -> (write: Option<String>)
        ensures
            final(self)@ == (TokenState { token: token@, ..old(self)@ }),
            write.is_some() == old(self)@.file_enabled,
            write matches Some(w) ==> w@ == token_file_text(token@),
    {
        self.token = owned(token);
        if self.file_enabled {
            Some(token_file_content(token))
        } else {
            None
        }
    }

    /// Loads the token from what the loader or the file gave, and stores
    /// it. A loader error, an empty loaded token, a file error and a file
    /// without a non-empty `token` property are `TigerError::Config`
    /// errors, and leave the stored token as it was.
    pub fn load_token(&mut self, source: TokenSource) -> (r: Result<String, TigerError>)
        ensures
            match source {
                TokenSource::Loader(Ok(t)) => if t@.len() > 0 {
                    r matches Ok(x) && x@ == t@ && final(self)@ == (TokenState {
                        token: t@,
                        ..old(self)@
                    })
                } else {
                    r matches Err(TigerError::Config(m)) && m@ == loader_empty_message()
                        && final(self)@ == old(self)@
                },
                TokenSource::Loader(Err(e)) => r matches Err(TigerError::Config(m)) && m@
                    == loader_failed_prefix() + e@ && final(self)@ == old(self)@,
                TokenSource::File(Err(e)) => r == Err::<String, TigerError>(e) && final(self)@
                    == old(self)@,
                TokenSource::File(Ok(content)) => match file_loaded_token(content@) {
                    Some(t) => r matches Ok(x) && x@ == t && final(self)@ == (TokenState {
                        token: t,
                        ..old(self)@
                    }),
                    None => r matches Err(TigerError::Config(m)) && m@ == file_no_token_message()
                        && final(self)@ == old(self)@,
                },
            },
    {
        match source {
            TokenSource::Loader(Ok(t)) => {
                if t.as_str().is_empty() {
                    return Err(TigerError::Config(owned("自定义 token 加载返回空值")));
                }
                self.token = t.clone();
                Ok(t)
            },
            TokenSource::Loader(Err(e)) => {
                let mut m = String::from_str("自定义 token 加载失败: ");
                m.append(e.as_str());
                Err(TigerError::Config(m))
            },
            TokenSource::File(Err(e)) => Err(e),
            TokenSource::File(Ok(content)) => {
                let props = match parse_properties(content.as_str()) {
                    Ok(p) => p,
                    Err(e) => return Err(e),
                };
                let token = match props.get("token") {
                    Some(t) => t.clone(),
                    None => String::new(),
                };
                if token.as_str().is_empty() {
                    return Err(TigerError::Config(owned("Token 文件中未找到 token 字段")));
                }
                self.token = token.clone();
                Ok(token)
            },
        }
    }

    /// Whether the token is due for a refresh at `now_secs`: never with an
    /// empty token or a threshold of 0.
    pub fn should_token_refresh(&self, now_secs: i64) -> (b: bool)
        ensures
            b == (self@.token.len() > 0 && self@.refresh_duration != 0 && token_due(
                self@.token,
                self@.refresh_duration,
                now_secs as int,
            )),
    {
        if self.token.as_str().is_empty() || self.refresh_duration == 0 {
            return false;
        }
        should_refresh_token(self.token.as_str(), self.refresh_duration, now_secs)
    }

    /// Takes the outcome of a background refresh: a non-empty new token is
    /// stored and given back (to be written to the file when it is in use,
    /// and handed to the writer callback); anything else changes nothing.
    pub fn apply_refreshed(&mut self, outcome: Result<String, TigerError>) -> (stored: Option<
        String,
    >)
        ensures
            match outcome {
                Ok(t) => if t@.len() > 0 {
                    stored matches Some(s) && s@ == t@ && final(self)@ == (TokenState {
                        token: t@,
                        ..old(self)@
                    })
                } else {
                    stored is None && final(self)@ == old(self)@
                },
                Err(_) => stored is None && final(self)@ == old(self)@,
            },
    {
        match outcome {
            Ok(t) => {
                if t.as_str().is_empty() {
                    None
                } else {
                    self.token = t.clone();
                    Some(t)
                }
            },
            Err(_) => None,
        }
    }

    /// Whether the token file is in use.
    pub fn file_enabled(&self) -> (b: bool)
        ensures
            b == self@.file_enabled,
    {
        self.file_enabled
    }
}

/// Once a token is due for a refresh it stays due as time goes on.
pub proof fn law_refresh_due_stays(token: Seq<char>, refresh_duration: int, t1: int, t2: int)
    requires
        t1 <= t2,
        token_due(token, refresh_duration, t1),
    ensures
        token_due(token, refresh_duration, t2),
{
}

/// What `set_token` writes to the token file, `load_token` reads back from
/// it: loading the text written for a non-empty token without line breaks,
/// backslashes at its end or surrounding blanks gives that token.
pub proof fn law_set_then_load(token: Seq<char>)
    requires
        token.len() > 0,
        crate::config::config_parser::plain_value(token),
    ensures
        file_loaded_token(token_file_text(token)) == Some(token),
{
    law_token_file_roundtrip(token);
}

/// A token written to the file is what loading that file gives back, for
/// a non-empty token without line breaks, backslashes at its end or
/// surrounding blanks (such as any base64 text).
pub proof fn law_token_file_roundtrip(token: Seq<char>)
    requires
        token.len() > 0,
        crate::config::config_parser::plain_value(token),
    ensures
        file_token(token_file_text(token)) == Some(token),
{
    reveal_strlit("token");
    reveal_strlit("token=");
    reveal_strlit("\n");
    let key = "token"@;
    let es = seq![(key, token)];
    let line = crate::config::config_parser::entry_line((key, token));
    assert(crate::config::config_parser::plain_key(key)) by {
        assert(key[0] == 't');
        assert(key.last() == 'n');
    }
    assert(forall|i: int| 0 <= i < es.len() ==> crate::config::config_parser::plain_entry(
        #[trigger] es[i],
    ));
    crate::config::config_parser::law_properties_roundtrip(es);
    let all = es.map_values(|e: (Seq<char>, Seq<char>)| crate::config::config_parser::entry_line(e));
    assert(all =~= seq![line]);
    let leq = crate::text::lex_order();
    crate::text::lemma_lex_total_ordering();
    all.lemma_sort_by_ensures(leq);
    let sorted = all.sort_by(leq);
    assert(sorted.to_multiset() == all.to_multiset());
    assert(sorted.len() == 1) by {
        vstd::seq_lib::to_multiset_len(sorted);
        vstd::seq_lib::to_multiset_len(all);
    }
    assert(sorted[0] == line) by {
        vstd::seq_lib::to_multiset_contains(sorted, sorted[0]);
        vstd::seq_lib::to_multiset_contains(all, sorted[0]);
    }
    assert(sorted =~= seq![line]);
    let text = token_file_text(token);
    assert(text =~= line + seq!['\n']);
    assert(crate::config::config_parser::serialized(es) == line);
    assert forall|i: int| 0 <= i < line.len() implies line[i] != '\n' && line[i] != '\r' by {
        if i < 6 {
        } else {
            assert(line[i] == token[i - 6]);
        }
    }
    crate::config::config_parser::lemma_nl_index(line);
    crate::config::config_parser::lemma_nl_index(text);
    assert(crate::config::config_parser::nl_index(line) == line.len());
    assert(crate::config::config_parser::nl_index(text) == line.len()) by {
        if crate::config::config_parser::nl_index(text) < line.len() {
            assert(text[crate::config::config_parser::nl_index(text)] == line[crate::config::config_parser::nl_index(text)]);
        }
    }
    assert(text.subrange(0, line.len() as int) =~= line);
    assert(text.subrange(line.len() + 1int, text.len() as int) =~= Seq::<char>::empty());
    assert(crate::config::config_parser::strip_cr(line) == line);
    let empty = Seq::<char>::empty();
    assert(crate::config::config_parser::lines(empty) =~= Seq::<Seq<char>>::empty());
    assert(crate::config::config_parser::lines(line) =~= seq![line]);
    assert(crate::config::config_parser::lines(text) =~= seq![line] + crate::config::config_parser::lines(
        empty,
    ));
    assert(crate::config::config_parser::lines(text) =~= crate::config::config_parser::lines(line));
    let m = entries_map(es);
    assert(m.contains_key(key) && m[key] == token);
}

} // verus!
