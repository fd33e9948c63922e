//! Client settings and their builder.
//!
//! Where a setting comes from, highest first: environment variables, the
//! builder's setters (a properties file given to the builder counts as
//! setters, and fills only what is still unset), a properties file found
//! on its own, and the defaults. `tiger_id` and `private_key` are required.
//!
//! Reading files and the environment, asking the domain service and
//! reading the machine's address are done by the caller; the builder takes
//! what they gave, in stages:
//! `needs_auto_discover` / `apply_properties`, `apply_env`,
//! `needs_token` / `offer_token`, `needs_domain_query`,
//! `needs_device_id`, and `build`.

use vstd::prelude::*;
use crate::config::config_parser::{entries_map, parse_properties, Properties};
use crate::config::domain::{
    opt_text, quote_server_spec, resolve_dynamic_quote_server_url, resolve_dynamic_server_url,
    trade_server_spec,
};
use crate::duration::Duration;
use crate::error::TigerError;
use crate::model::enums::Language;
use crate::text::owned;

verus! {

/// Default request timeout, in seconds.
pub const DEFAULT_TIMEOUT_SECS: u64 = 15;

/// The default gateway.
pub open spec fn default_server_url() -> Seq<char> {
    "https://openapi.tigerfintech.com/gateway"@
}

/// The server's public key, for checking response signatures.
pub open spec fn default_tiger_public_key() -> Seq<char> {
    "MIGfMA0GCSqGSIb3DQEBAQUAA4GNADCBiQKBgQDNF3G8SoEcCZh2rshUbayDgLLrj6rKgzNMxDL2HSnKcB0+GPOsndqSv+a4IBu9+I3fyBp5hkyMMG2+AXugd9pMpy6VxJxlNjhX1MYbNTZJUT4nudki4uh+LMOkIBHOceGNXjgB+cXqmlUnjlqha/HgboeHSnSgpM3dKSJQlIOsDwIDAQAB"@
}

/// The default gateway.
pub fn default_server_url_text() -> (s: &'static str)
    ensures
        s@ == default_server_url(),
{
    "https://openapi.tigerfintech.com/gateway"
}

/// The server's public key.
pub fn default_tiger_public_key_text() -> (s: &'static str)
    ensures
        s@ == default_tiger_public_key(),
{
    "MIGfMA0GCSqGSIb3DQEBAQUAA4GNADCBiQKBgQDNF3G8SoEcCZh2rshUbayDgLLrj6rKgzNMxDL2HSnKcB0+GPOsndqSv+a4IBu9+I3fyBp5hkyMMG2+AXugd9pMpy6VxJxlNjhX1MYbNTZJUT4nudki4uh+LMOkIBHOceGNXjgB+cXqmlUnjlqha/HgboeHSnSgpM3dKSJQlIOsDwIDAQAB"
}

/// The client's settings.
#[derive(Clone)]
pub struct ClientConfig {
    pub tiger_id: String,
    pub private_key: String,
    pub account: String,
    pub license: Option<String>,
    pub language: Language,
    pub timezone: Option<String>,
    pub timeout: Duration,
    pub token: Option<String>,
    /// Token age after which the token is refreshed; none or zero: never.
    pub token_refresh_duration: Option<Duration>,
    /// How often the token's age is checked.
    pub token_check_interval: Option<Duration>,
    pub server_url: String,
    pub quote_server_url: String,
    pub tiger_public_key: String,
    pub device_id: String,
}

impl ClientConfig {
    /// A builder with nothing set.
    pub fn builder() -> (b: ClientConfigBuilder)
        ensures
            b@ == BuilderState::empty(),
    {
        ClientConfigBuilder::new()
    }
}

/// The settings a builder holds, as plain values.
pub struct BuilderState {
    pub tiger_id: Option<Seq<char>>,
    pub private_key: Option<Seq<char>>,
    pub account: Option<Seq<char>>,
    pub license: Option<Seq<char>>,
    pub language: Option<Language>,
    pub timezone: Option<Seq<char>>,
    pub timeout: Option<nat>,
    pub token: Option<Seq<char>>,
    pub token_refresh_duration: Option<nat>,
    pub token_check_interval: Option<nat>,
    pub server_url: Option<Seq<char>>,
    pub quote_server_url: Option<Seq<char>>,
    pub enable_dynamic_domain: bool,
    pub tiger_public_key: Option<Seq<char>>,
    pub device_id: Option<Seq<char>>,
    pub skip_auto_discover: bool,
}

impl BuilderState {
    /// Nothing set; dynamic domains on; discovery allowed.
    pub open spec fn empty() -> BuilderState {
        BuilderState {
            tiger_id: None,
            private_key: None,
            account: None,
            license: None,
            language: None,
            timezone: None,
            timeout: None,
            token: None,
            token_refresh_duration: None,
            token_check_interval: None,
            server_url: None,
            quote_server_url: None,
            enable_dynamic_domain: true,
            tiger_public_key: None,
            device_id: None,
            skip_auto_discover: false,
        }
    }
}

/// The view of an optional `String`.
pub open spec fn opt_string(s: Option<String>) -> Option<Seq<char>> {
    match s {
        Some(t) => Some(t@),
        None => None,
    }
}

/// The view of an optional `Duration`.
pub open spec fn opt_duration(d: Option<Duration>) -> Option<nat> {
    match d {
        Some(x) => Some(x@),
        None => None,
    }
}

/// `current` when set, else the map's value for `key` when present.
pub open spec fn fill(
    current: Option<Seq<char>>,
    m: Map<Seq<char>, Seq<char>>,
    key: Seq<char>,
) -> Option<Seq<char>> {
    if current is Some {
        current
    } else if m.contains_key(key) {
        Some(m[key])
    } else {
        None
    }
}

/// The builder after taking in the properties `m`: each of `tiger_id`,
/// the private key (`private_key`, else `private_key_pk8`, else
/// `private_key_pk1`), `account`, `license`, `language` (`zh_CN`, `zh_TW`
/// or `en_US`; another value is ignored) and `timezone` is filled only when
/// it is still unset.
pub open spec fn with_properties(b: BuilderState, m: Map<Seq<char>, Seq<char>>) -> BuilderState {
    BuilderState {
        tiger_id: fill(b.tiger_id, m, "tiger_id"@),
        private_key: fill(
            fill(fill(b.private_key, m, "private_key"@), m, "private_key_pk8"@),
            m,
            "private_key_pk1"@,
        ),
        account: fill(b.account, m, "account"@),
        license: fill(b.license, m, "license"@),
        language: if b.language is None && m.contains_key("language"@) {
            Language::from_wire_spec(m["language"@])
        } else {
            b.language
        },
        timezone: fill(b.timezone, m, "timezone"@),
        ..b
    }
}

/// Values read from the environment (`TIGEROPEN_TIGER_ID`,
/// `TIGEROPEN_PRIVATE_KEY`, `TIGEROPEN_ACCOUNT`, `TIGEROPEN_TOKEN`); none
/// for a variable that is not set.
pub struct EnvValues {
    pub tiger_id: Option<String>,
    pub private_key: Option<String>,
    pub account: Option<String>,
    pub token: Option<String>,
}

/// `current`, replaced by `value` when that is set and not empty.
pub open spec fn override_with(current: Option<Seq<char>>, value: Option<Seq<char>>) -> Option<
    Seq<char>,
> {
    match value {
        Some(v) => if v.len() > 0 {
            Some(v)
        } else {
            current
        },
        None => current,
    }
}

/// The builder after the environment: a non-empty variable replaces the
/// id, the key and the account; the token variable fills an unset token.
pub open spec fn with_env(b: BuilderState, env: EnvValues) -> BuilderState {
    BuilderState {
        tiger_id: override_with(b.tiger_id, opt_string(env.tiger_id)),
        private_key: override_with(b.private_key, opt_string(env.private_key)),
        account: override_with(b.account, opt_string(env.account)),
        token: if b.token is None {
            override_with(None, opt_string(env.token))
        } else {
            b.token
        },
        ..b
    }
}

/// The trade and quote gateways: an explicit server address (its quote
/// address defaulting to it), else the dynamic trade gateway or the default
/// one, with the explicit quote address, else the dynamic quote gateway,
/// else the trade gateway.
pub open spec fn server_urls(b: BuilderState, domains: Option<(Map<Seq<char>, Seq<char>>, bool)>) -> (
    Seq<char>,
    Seq<char>,
) {
    match b.server_url {
        Some(url) => (
            url,
            match b.quote_server_url {
                Some(q) => q,
                None => url,
            },
        ),
        None => {
            let (trade, quote) = match domains {
                Some((m, empty)) => if b.enable_dynamic_domain {
                    (trade_server_spec(m, empty, b.license), quote_server_spec(m, empty, b.license))
                } else {
                    (None, None)
                },
                None => (None, None),
            };
            let server = match trade {
                Some(t) => t,
                None => default_server_url(),
            };
            let q = match b.quote_server_url {
                Some(q) => q,
                None => match quote {
                    Some(x) => x,
                    None => server,
                },
            };
            (server, q)
        },
    }
}

/// Whether `s` is set and not empty.
pub open spec fn present(s: Option<Seq<char>>) -> bool {
    s matches Some(v) && v.len() > 0
}

/// Text of the error for a missing `tiger_id`.
pub open spec fn missing_tiger_id_message() -> Seq<char> {
    "tiger_id is required. Set it via builder().tiger_id(), env var TIGEROPEN_TIGER_ID, or a properties file"@
}

/// Text of the error for a missing `private_key`.
pub open spec fn missing_private_key_message() -> Seq<char> {
    "private_key is required. Set it via builder().private_key(), env var TIGEROPEN_PRIVATE_KEY, or a properties file"@
}

/// A builder of `ClientConfig`.
pub struct ClientConfigBuilder {
    tiger_id: Option<String>,
    private_key: Option<String>,
    account: Option<String>,
    license: Option<String>,
    language: Option<Language>,
    timezone: Option<String>,
    timeout: Option<Duration>,
    token: Option<String>,
    token_refresh_duration: Option<Duration>,
    token_check_interval: Option<Duration>,
    server_url: Option<String>,
    quote_server_url: Option<String>,
    enable_dynamic_domain: bool,
    tiger_public_key: Option<String>,
    device_id: Option<String>,
    skip_auto_discover: bool,
}

impl View for ClientConfigBuilder {
    type V = BuilderState;

    closed spec fn view(&self) -> BuilderState {
        BuilderState {
            tiger_id: opt_string(self.tiger_id),
            private_key: opt_string(self.private_key),
            account: opt_string(self.account),
            license: opt_string(self.license),
            language: self.language,
            timezone: opt_string(self.timezone),
            timeout: opt_duration(self.timeout),
            token: opt_string(self.token),
            token_refresh_duration: opt_duration(self.token_refresh_duration),
            token_check_interval: opt_duration(self.token_check_interval),
            server_url: opt_string(self.server_url),
            quote_server_url: opt_string(self.quote_server_url),
            enable_dynamic_domain: self.enable_dynamic_domain,
            tiger_public_key: opt_string(self.tiger_public_key),
            device_id: opt_string(self.device_id),
            skip_auto_discover: self.skip_auto_discover,
        }
    }
}

/// A copy of an optional property value.
fn prop_value(props: &Properties, key: &str) -> (r: Option<String>)
    ensures
        r.is_some() == entries_map(props@).contains_key(key@),
        r matches Some(v) ==> v@ == entries_map(props@)[key@],
{
    match props.get(key) {
        Some(v) => Some(v.clone()),
        None => None,
    }
}

impl ClientConfigBuilder {
    /// A builder with nothing set (dynamic domains on).
    pub fn new() -> (b: Self)
        ensures
            b@ == BuilderState::empty(),
    {
        ClientConfigBuilder {
            tiger_id: None,
            private_key: None,
            account: None,
            license: None,
            language: None,
            timezone: None,
            timeout: None,
            token: None,
            token_refresh_duration: None,
            token_check_interval: None,
            server_url: None,
            quote_server_url: None,
            enable_dynamic_domain: true,
            tiger_public_key: None,
            device_id: None,
            skip_auto_discover: false,
        }
    }

    /// Sets the developer id.
    pub fn tiger_id(self, id: &str) -> (b: Self)
        ensures
            b@ == (BuilderState { tiger_id: Some(id@), ..self@ }),
    {
        let mut b = self;
        b.tiger_id = Some(owned(id));
        b
    }

    /// Sets the RSA private key.
    pub fn private_key(self, key: &str) -> (b: Self)
        ensures
            b@ == (BuilderState { private_key: Some(key@), ..self@ }),
    {
        let mut b = self;
        b.private_key = Some(owned(key));
        b
    }

    /// Sets the trading account.
    pub fn account(self, account: &str) -> (b: Self)
        ensures
            b@ == (BuilderState { account: Some(account@), ..self@ }),
    {
        let mut b = self;
        b.account = Some(owned(account));
        b
    }

    /// Sets the licence.
    pub fn license(self, license: &str) -> (b: Self)
        ensures
            b@ == (BuilderState { license: Some(license@), ..self@ }),
    {
        let mut b = self;
        b.license = Some(owned(license));
        b
    }

    /// Sets the language.
    pub fn language(self, lang: Language) -> (b: Self)
        ensures
            b@ == (BuilderState { language: Some(lang), ..self@ }),
    {
        let mut b = self;
        b.language = Some(lang);
        b
    }

    /// Sets the time zone.
    pub fn timezone(self, tz: &str) -> (b: Self)
        ensures
            b@ == (BuilderState { timezone: Some(tz@), ..self@ }),
    {
        let mut b = self;
        b.timezone = Some(owned(tz));
        b
    }

    /// Sets the request timeout.
    pub fn timeout(self, timeout: Duration) -> (b: Self)
        ensures
            b@ == (BuilderState { timeout: Some(timeout@), ..self@ }),
    {
        let mut b = self;
        b.timeout = Some(timeout);
        b
    }

    /// Turns dynamic domain resolution on or off (on by default).
    pub fn enable_dynamic_domain(self, enable: bool) -> (b: Self)
        ensures
            b@ == (BuilderState { enable_dynamic_domain: enable, ..self@ }),
    {
        let mut b = self;
        b.enable_dynamic_domain = enable;
        b
    }

    /// Sets the licence token.
    pub fn token(self, token: &str) -> (b: Self)
        ensures
            b@ == (BuilderState { token: Some(token@), ..self@ }),
    {
        let mut b = self;
        b.token = Some(owned(token));
        b
    }

    /// Sets the token age after which the token is refreshed.
    pub fn token_refresh_duration(self, d: Duration) -> (b: Self)
        ensures
            b@ == (BuilderState { token_refresh_duration: Some(d@), ..self@ }),
    {
        let mut b = self;
        b.token_refresh_duration = Some(d);
        b
    }

    /// Sets how often the token's age is checked.
    pub fn token_check_interval(self, d: Duration) -> (b: Self)
        ensures
            b@ == (BuilderState { token_check_interval: Some(d@), ..self@ }),
    {
        let mut b = self;
        b.token_check_interval = Some(d);
        b
    }

    /// Sets the server's public key.
    pub fn tiger_public_key(self, key: &str) -> (b: Self)
        ensures
            b@ == (BuilderState { tiger_public_key: Some(key@), ..self@ }),
    {
        let mut b = self;
        b.tiger_public_key = Some(owned(key));
        b
    }

    /// Sets the quote gateway.
    pub fn quote_server_url(self, url: &str) -> (b: Self)
        ensures
            b@ == (BuilderState { quote_server_url: Some(url@), ..self@ }),
    {
        let mut b = self;
        b.quote_server_url = Some(owned(url));
        b
    }

    /// Sets the device id (otherwise the machine's address is used).
    pub fn device_id(self, id: &str) -> (b: Self)
        ensures
            b@ == (BuilderState { device_id: Some(id@), ..self@ }),
    {
        let mut b = self;
        b.device_id = Some(owned(id));
        b
    }

    /// Takes in a properties file given explicitly: `content` is its text,
    /// or none when it could not be read. Discovery of a file is then
    /// skipped, readable or not.
    pub fn properties_file(self, content: Option<&str>) -> (b: Self)
        ensures
            b@ == match content {
                Some(c) => with_properties(
                    BuilderState { skip_auto_discover: true, ..self@ },
                    entries_map(crate::config::config_parser::parsed_entries(c@)),
                ),
                None => BuilderState { skip_auto_discover: true, ..self@ },
            },
    {
        let mut b = self;
        b.skip_auto_discover = true;
        if let Some(c) = content {
            if let Ok(props) = parse_properties(c) {
                b.apply_properties(&props);
            }
        }
        b
    }

    /// Fills the settings that are still unset from `props`.
    pub fn apply_properties(&mut self, props: &Properties)
        ensures
            final(self)@ == with_properties(old(self)@, entries_map(props@)),
    {
        if self.tiger_id.is_none() {
            self.tiger_id = prop_value(props, "tiger_id");
        }
        if self.private_key.is_none() {
            let a = prop_value(props, "private_key");
            if a.is_some() {
                self.private_key = a;
            } else {
                let b = prop_value(props, "private_key_pk8");
                if b.is_some() {
                    self.private_key = b;
                } else {
                    self.private_key = prop_value(props, "private_key_pk1");
                }
            }
        }
        if self.account.is_none() {
            self.account = prop_value(props, "account");
        }
        if self.license.is_none() {
            self.license = prop_value(props, "license");
        }
        if self.language.is_none() {
            if let Some(v) = props.get("language") {
                self.language = Language::from_wire(v.as_str());
            }
        }
        if self.timezone.is_none() {
            self.timezone = prop_value(props, "timezone");
        }
    }

    /// Whether a properties file should be looked for: no file was given
    /// and the id or the key is still unset.
    pub fn needs_auto_discover(&self) -> (b: bool)
        ensures
            b == (!self@.skip_auto_discover && (self@.tiger_id is None || self@.private_key is None)),
    {
        !self.skip_auto_discover && (self.tiger_id.is_none() || self.private_key.is_none())
    }

    /// Applies the environment: non-empty variables replace the id, the key
    /// and the account, and the token variable fills an unset token.
    pub fn apply_env(&mut self, env: &EnvValues)
        ensures
            final(self)@ == with_env(old(self)@, *env),
    {
        if let Some(v) = &env.tiger_id {
            if !v.as_str().is_empty() {
                self.tiger_id = Some(v.clone());
            }
        }
        if let Some(v) = &env.private_key {
            if !v.as_str().is_empty() {
                self.private_key = Some(v.clone());
            }
        }
        if let Some(v) = &env.account {
            if !v.as_str().is_empty() {
                self.account = Some(v.clone());
            }
        }
        if self.token.is_none() {
            if let Some(v) = &env.token {
                if !v.as_str().is_empty() {
                    self.token = Some(v.clone());
                }
            }
        }
    }

    /// Whether the token is still unset.
    pub fn needs_token(&self) -> (b: bool)
        ensures
            b == (self@.token is None),
    {
        self.token.is_none()
    }

    /// Offers a token from a further source (the custom loader, then the
    /// token file): it is taken when the token is unset and it is not empty.
    pub fn offer_token(&mut self, candidate: Option<String>)
        ensures
            final(self)@ == (if old(self)@.token is None {
                BuilderState { token: override_with(None, opt_string(candidate)), ..old(self)@ }
            } else {
                old(self)@
            }),
    {
        if self.token.is_none() {
            if let Some(t) = candidate {
                if !t.as_str().is_empty() {
                    self.token = Some(t);
                }
            }
        }
    }

    /// Whether the domain service should be asked: no server address is
    /// set and dynamic domains are on.
    pub fn needs_domain_query(&self) -> (b: bool)
        ensures
            b == (self@.server_url is None && self@.enable_dynamic_domain),
    {
        self.server_url.is_none() && self.enable_dynamic_domain
    }

    /// The licence set so far (the domain service is asked for it).
    pub fn current_license(&self) -> (l: Option<String>)
        ensures
            opt_string(l) == self@.license,
    {
        match &self.license {
            Some(x) => Some(x.clone()),
            None => None,
        }
    }

    /// Whether the device id must be taken from the machine.
    pub fn needs_device_id(&self) -> (b: bool)
        ensures
            b == (self@.device_id is None),
    {
        self.device_id.is_none()
    }

    /// The settings: `domains` is the domain service's answer (asked when
    /// `needs_domain_query`), `detected_device_id` the machine's address
    /// (used when no device id is set). Fails with `TigerError::Config`
    /// when `tiger_id` or, after it, `private_key` is unset or empty.
    pub fn build(self, domains: Option<&Properties>, detected_device_id: &str) -> (r: Result<
        ClientConfig,
        TigerError,
    >)
        ensures
            !present(self@.tiger_id) ==> (r matches Err(TigerError::Config(m))
                && m@ == missing_tiger_id_message()),
            present(self@.tiger_id) && !present(self@.private_key) ==> (r matches Err(
                TigerError::Config(m),
            ) && m@ == missing_private_key_message()),
            present(self@.tiger_id) && present(self@.private_key) ==> (r matches Ok(c) && {
                let urls = server_urls(
                    self@,
                    match domains {
                        Some(d) => Some((entries_map(d@), d@.len() == 0)),
                        None => None,
                    },
                );
                &&& Some(c.tiger_id@) == self@.tiger_id
                &&& Some(c.private_key@) == self@.private_key
                &&& c.account@ == (match self@.account {
                    Some(a) => a,
                    None => Seq::empty(),
                })
                &&& opt_string(c.license) == self@.license
                &&& c.language == (match self@.language {
                    Some(l) => l,
                    None => Language::ZhCn,
                })
                &&& opt_string(c.timezone) == self@.timezone
                &&& c.timeout@ == (match self@.timeout {
                    Some(t) => t,
                    None => (DEFAULT_TIMEOUT_SECS * 1_000_000_000) as nat,
                })
                &&& opt_string(c.token) == self@.token
                &&& opt_duration(c.token_refresh_duration) == self@.token_refresh_duration
                &&& opt_duration(c.token_check_interval) == self@.token_check_interval
                &&& c.server_url@ == urls.0
                &&& c.quote_server_url@ == urls.1
                &&& c.tiger_public_key@ == (match self@.tiger_public_key {
                    Some(k) => k,
                    None => default_tiger_public_key(),
                })
                &&& c.device_id@ == (match self@.device_id {
                    Some(d) => d,
                    None => detected_device_id@,
                })
            }),
    {
        let ghost state = self@;
        let (server_url, quote_server_url) = match self.server_url {
            Some(url) => {
                let quote = match self.quote_server_url {
                    Some(q) => q,
                    None => url.clone(),
                };
                (url, quote)
            },
            None => {
                let mut resolved_server: Option<String> = None;
                let mut resolved_quote: Option<String> = None;
                if self.enable_dynamic_domain {
                    if let Some(d) = domains {
                        let lic: Option<&str> = match &self.license {
                            Some(l) => Some(l.as_str()),
                            None => None,
                        };
                        assert(opt_text(lic) == state.license);
                        resolved_server = resolve_dynamic_server_url(d, lic);
                        resolved_quote = resolve_dynamic_quote_server_url(d, lic);
                    }
                }
                let server = match resolved_server {
                    Some(s) => s,
                    None => owned(default_server_url_text()),
                };
                let quote = match self.quote_server_url {
                    Some(q) => q,
                    None => match resolved_quote {
                        Some(q) => q,
                        None => server.clone(),
                    },
                };
                (server, quote)
            },
        };
        let tiger_id = match self.tiger_id {
            Some(t) => if !t.as_str().is_empty() {
                t
            } else {
                return Err(TigerError::Config(owned(
                    "tiger_id is required. Set it via builder().tiger_id(), env var TIGEROPEN_TIGER_ID, or a properties file",
                )));
            },
            None => {
                return Err(TigerError::Config(owned(
                    "tiger_id is required. Set it via builder().tiger_id(), env var TIGEROPEN_TIGER_ID, or a properties file",
                )));
            },
        };
        let private_key = match self.private_key {
            Some(k) => if !k.as_str().is_empty() {
                k
            } else {
                return Err(TigerError::Config(owned(
                    "private_key is required. Set it via builder().private_key(), env var TIGEROPEN_PRIVATE_KEY, or a properties file",
                )));
            },
            None => {
                return Err(TigerError::Config(owned(
                    "private_key is required. Set it via builder().private_key(), env var TIGEROPEN_PRIVATE_KEY, or a properties file",
                )));
            },
        };
        let device_id = match self.device_id {
            Some(d) => d,
            None => owned(detected_device_id),
        };
        let account = match self.account {
            Some(a) => a,
            None => String::new(),
        };
        let language = match self.language {
            Some(l) => l,
            None => Language::ZhCn,
        };
        let timeout = match self.timeout {
            Some(t) => t,
            None => Duration::from_secs(DEFAULT_TIMEOUT_SECS),
        };
        let tiger_public_key = match self.tiger_public_key {
            Some(k) => k,
            None => owned(default_tiger_public_key_text()),
        };
        Ok(
            ClientConfig {
                tiger_id,
                private_key,
                account,
                license: self.license,
                language,
                timezone: self.timezone,
                timeout,
                token: self.token,
                token_refresh_duration: self.token_refresh_duration,
                token_check_interval: self.token_check_interval,
                server_url,
                quote_server_url,
                tiger_public_key,
                device_id,
            },
        )
    }
}

/// The builder after the whole resolution: a discovered properties file
/// (when discovery applies and one was found), then the environment.
pub open spec fn resolved(
    b: BuilderState,
    discovered: Option<Map<Seq<char>, Seq<char>>>,
    env: EnvValues,
) -> BuilderState {
    let after_file = match discovered {
        Some(m) => if !b.skip_auto_discover && (b.tiger_id is None || b.private_key is None) {
            with_properties(b, m)
        } else {
            b
        },
        None => b,
    };
    with_env(after_file, env)
}

/// Where the id comes from: a non-empty environment variable wins over the
/// builder (setters and given files), which wins over a discovered file.
pub proof fn law_config_priority(
    b: BuilderState,
    discovered: Option<Map<Seq<char>, Seq<char>>>,
    env: EnvValues,
)
    ensures
        ({
            let r = resolved(b, discovered, env);
            &&& present(opt_string(env.tiger_id)) ==> r.tiger_id == opt_string(env.tiger_id)
            &&& present(opt_string(env.private_key)) ==> r.private_key == opt_string(
                env.private_key,
            )
            &&& present(opt_string(env.account)) ==> r.account == opt_string(env.account)
            &&& !present(opt_string(env.tiger_id)) && b.tiger_id is Some ==> r.tiger_id
                == b.tiger_id
            &&& !present(opt_string(env.private_key)) && b.private_key is Some ==> r.private_key
                == b.private_key
            &&& !present(opt_string(env.account)) && b.account is Some ==> r.account == b.account
            &&& !present(opt_string(env.tiger_id)) && b.tiger_id is None && !b.skip_auto_discover
                && discovered is Some && discovered.unwrap().contains_key("tiger_id"@) ==> r.tiger_id
                == Some(discovered.unwrap()["tiger_id"@])
            &&& b.license is Some ==> r.license == b.license
            &&& b.timezone is Some ==> r.timezone == b.timezone
            &&& b.language is Some ==> r.language == b.language
        }),
{
}

} // verus!
