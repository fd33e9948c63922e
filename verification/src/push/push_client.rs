//! The push client's state and decisions: connection state, the requests
//! it sends, what it does with what it receives, its subscriptions, and
//! the backoff between reconnection attempts.
//!
//! The connection itself (TCP, TLS, the read, write and heartbeat loops,
//! the callbacks) is driven by the caller, which sends the requests built
//! here and hands back what arrives.

use vstd::prelude::*;
use crate::config::client_config::ClientConfig;
use crate::duration::{max_nanos, Duration};
use crate::push::proto_message::{
    build_connect_message, build_disconnect_message, build_heartbeat_message,
    build_subscribe_message, build_unsubscribe_message, next_id, same_text, subject_data_type,
    subject_to_data_type, Command, Request, RequestIds,
};
use crate::push::push_message::SubjectType;
use crate::push::routing::{dispatch_response, response_action_ok, Response, ResponseAction};
use crate::push::subscriptions::{
    account_request, account_slots, market_request, market_slots, SubscriptionState,
    Subscriptions,
};
use crate::text::{chars_of, find_char, owned, string_of_range};

verus! {

/// Default heartbeat interval, in seconds.
pub const DEFAULT_HEARTBEAT_INTERVAL_SECS: u64 = 10;

/// Default wait before the first reconnection attempt, in seconds.
pub const DEFAULT_RECONNECT_INTERVAL_SECS: u64 = 5;

/// Longest wait between reconnection attempts, in seconds.
pub const MAX_RECONNECT_INTERVAL_SECS: u64 = 60;

/// Default connection timeout, in seconds.
pub const DEFAULT_CONNECT_TIMEOUT_SECS: u64 = 30;

/// Heartbeat send interval announced to the server, in milliseconds.
pub const DEFAULT_SEND_INTERVAL: u32 = 10000;

/// Heartbeat receive interval announced to the server, in milliseconds.
pub const DEFAULT_RECEIVE_INTERVAL: u32 = 10000;

/// The default push server.
pub open spec fn default_push_url() -> Seq<char> {
    "openapi.tigerfintech.com:9883"@
}

/// The SDK version announced on connecting.
pub open spec fn sdk_version() -> Seq<char> {
    "rust-sdk/1.0.0"@
}

/// The protocol version accepted.
pub open spec fn accept_version() -> Seq<char> {
    "2"@
}

/// State of the connection.
#[derive(Debug, Clone, Copy, PartialEq, Eq, Structural)]
pub enum ConnectionState {
    Disconnected,
    Connecting,
    Connected,
}

/// Options of the push client; unset options take their defaults.
#[derive(Default)]
pub struct PushClientOptions {
    pub push_url: Option<String>,
    pub heartbeat_interval_secs: Option<u64>,
    pub reconnect_interval_secs: Option<u64>,
    pub auto_reconnect: Option<bool>,
    pub connect_timeout_secs: Option<u64>,
}

/// The push client's state, as plain values.
pub struct PushState {
    pub state: ConnectionState,
    pub subscriptions: SubscriptionState,
    pub last_id: nat,
    pub push_url: Seq<char>,
    pub heartbeat_interval: nat,
    pub reconnect_interval: nat,
    pub connect_timeout: nat,
    pub auto_reconnect: bool,
    /// The client's settings.
    pub config: ClientConfig,
    /// Whether a writer to the server is open: requests go out only then.
    pub link_open: bool,
}

/// The push client.
pub struct PushClient {
    config: ClientConfig,
    push_url: String,
    heartbeat_interval: Duration,
    reconnect_interval: Duration,
    connect_timeout: Duration,
    auto_reconnect: bool,
    state: ConnectionState,
    subscriptions: Subscriptions,
    ids: RequestIds,
    link_open: bool,
}

impl View for PushClient {
    type V = PushState;

    closed spec fn view(&self) -> PushState {
        PushState {
            state: self.state,
            subscriptions: self.subscriptions@,
            last_id: self.ids@,
            push_url: self.push_url@,
            heartbeat_interval: self.heartbeat_interval@,
            reconnect_interval: self.reconnect_interval@,
            connect_timeout: self.connect_timeout@,
            auto_reconnect: self.auto_reconnect,
            config: self.config,
            link_open: self.link_open,
        }
    }
}

/// `secs` seconds, in nanoseconds.
pub open spec fn secs_nanos(secs: int) -> nat {
    (secs * 1_000_000_000) as nat
}

/// The value of an option, or `d`.
pub open spec fn or_secs(o: Option<u64>, d: u64) -> int {
    match o {
        Some(v) => v as int,
        None => d as int,
    }
}

impl PushClient {
    /// Whether the client's own parts are consistent.
    pub closed spec fn wf(&self) -> bool {
        self.subscriptions.wf()
    }

    /// A disconnected client with no subscriptions, for `config`; options
    /// left unset take their defaults (push server
    /// `openapi.tigerfintech.com:9883`, heartbeat 10 s, reconnection after
    /// 5 s, reconnection on, connection timeout 30 s).
    pub fn new(config: ClientConfig, options: Option<PushClientOptions>) -> (c: Self)
        ensures
            c.wf(),
            c@.state == ConnectionState::Disconnected,
            c@.subscriptions == SubscriptionState::empty(),
            c@.last_id == 0,
            c@.config == config,
            !c@.link_open,
            ({
                let o = match options {
                    Some(x) => x,
                    None => PushClientOptions {
                        push_url: None,
                        heartbeat_interval_secs: None,
                        reconnect_interval_secs: None,
                        auto_reconnect: None,
                        connect_timeout_secs: None,
                    },
                };
                &&& c@.push_url == match o.push_url {
                    Some(u) => u@,
                    None => default_push_url(),
                }
                &&& c@.heartbeat_interval == secs_nanos(
                    or_secs(o.heartbeat_interval_secs, DEFAULT_HEARTBEAT_INTERVAL_SECS),
                )
                &&& c@.reconnect_interval == secs_nanos(
                    or_secs(o.reconnect_interval_secs, DEFAULT_RECONNECT_INTERVAL_SECS),
                )
                &&& c@.connect_timeout == secs_nanos(
                    or_secs(o.connect_timeout_secs, DEFAULT_CONNECT_TIMEOUT_SECS),
                )
                &&& c@.auto_reconnect == match o.auto_reconnect {
                    Some(b) => b,
                    None => true,
                }
            }),
    {
        let opts = match options {
            Some(o) => o,
            None => PushClientOptions {
                push_url: None,
                heartbeat_interval_secs: None,
                reconnect_interval_secs: None,
                auto_reconnect: None,
                connect_timeout_secs: None,
            },
        };
        let push_url = match opts.push_url {
            Some(u) => u,
            None => owned("openapi.tigerfintech.com:9883"),
        };
        let hb = match opts.heartbeat_interval_secs {
            Some(v) => v,
            None => DEFAULT_HEARTBEAT_INTERVAL_SECS,
        };
        let rc = match opts.reconnect_interval_secs {
            Some(v) => v,
            None => DEFAULT_RECONNECT_INTERVAL_SECS,
        };
        let ct = match opts.connect_timeout_secs {
            Some(v) => v,
            None => DEFAULT_CONNECT_TIMEOUT_SECS,
        };
        let auto = match opts.auto_reconnect {
            Some(b) => b,
            None => true,
        };
        PushClient {
            config,
            push_url,
            heartbeat_interval: Duration::from_secs(hb),
            reconnect_interval: Duration::from_secs(rc),
            connect_timeout: Duration::from_secs(ct),
            auto_reconnect: auto,
            state: ConnectionState::Disconnected,
            subscriptions: Subscriptions::new(),
            ids: RequestIds::new(),
            link_open: false,
        }
    }

    /// The connection state.
    pub fn state(&self) -> (s: ConnectionState)
        ensures
            s == self@.state,
    {
        self.state
    }

    /// The client's settings.
    pub fn config(&self) -> (c: &ClientConfig)
        ensures
            *c == self@.config,
    {
        &self.config
    }

    /// The push server address (`host:port`).
    pub fn push_url(&self) -> (u: &String)
        ensures
            u@ == self@.push_url,
    {
        &self.push_url
    }

    /// The heartbeat interval.
    pub fn heartbeat_interval(&self) -> (d: Duration)
        ensures
            d@ == self@.heartbeat_interval,
    {
        self.heartbeat_interval
    }

    /// The wait before the first reconnection attempt.
    pub fn reconnect_interval(&self) -> (d: Duration)
        ensures
            d@ == self@.reconnect_interval,
    {
        self.reconnect_interval
    }

    /// The connection timeout.
    pub fn connect_timeout(&self) -> (d: Duration)
        ensures
            d@ == self@.connect_timeout,
    {
        self.connect_timeout
    }

    /// Whether a lost connection is re-established.
    pub fn auto_reconnect(&self) -> (b: bool)
        ensures
            b == self@.auto_reconnect,
    {
        self.auto_reconnect
    }

    /// Starts connecting: only a disconnected client may, and it is then
    /// connecting; otherwise the error text says it already is.
    pub fn begin_connect(&mut self) -> (r: Result<(), String>)
        requires
            old(self).wf(),
        ensures
            final(self).wf(),
            old(self)@.state == ConnectionState::Disconnected ==> r is Ok && final(self)@ == (
            PushState { state: ConnectionState::Connecting, ..old(self)@ }),
            old(self)@.state != ConnectionState::Disconnected ==> (r matches Err(m) && m@
                == "client is already connected or connecting"@) && final(self)@ == old(self)@,
    {
        if self.state != ConnectionState::Disconnected {
            return Err(owned("client is already connected or connecting"));
        }
        self.state = ConnectionState::Connecting;
        Ok(())
    }

    /// Marks the connection as lost (a failed attempt, or the end of the
    /// session): the client is disconnected and its writer dropped.
    pub fn mark_disconnected(&mut self)
        requires
            old(self).wf(),
        ensures
            final(self).wf(),
            final(self)@ == (PushState {
                state: ConnectionState::Disconnected,
                link_open: false,
                ..old(self)@
            }),
    {
        self.state = ConnectionState::Disconnected;
        self.link_open = false;
    }

    /// Records that a writer to the server is open (the transport is up).
    pub fn open_link(&mut self)
        requires
            old(self).wf(),
        ensures
            final(self).wf(),
            final(self)@ == (PushState { link_open: true, ..old(self)@ }),
    {
        self.link_open = true;
    }

    /// The host part of the push server address: what precedes the first
    /// `:`.
    pub fn push_host(&self) -> (h: String)
        ensures
            h@ == match crate::text::char_index(self@.push_url, ':') {
                Some(i) => self@.push_url.subrange(0, i),
                None => self@.push_url,
            },
    {
        let v = chars_of(self.push_url.as_str());
        proof {
            crate::text::lemma_char_index(v@, ':');
        }
        match find_char(&v, ':') {
            Some(i) => string_of_range(&v, 0, i),
            None => {
                assert(v@.subrange(0, v@.len() as int) =~= v@);
                string_of_range(&v, 0, v.len())
            },
        }
    }

    /// The CONNECT request, signed with `sign`, announcing the SDK and
    /// protocol versions and the heartbeat intervals. It takes a request id
    /// either way; without an open writer it cannot be sent, and the client
    /// is then disconnected with the error `failed to send CONNECT message`.
    pub fn connect_request(&mut self, sign: &str) -> (r: Result<Request, String>)
        requires
            old(self).wf(),
            old(self)@.last_id < u32::MAX,
        ensures
            final(self).wf(),
            final(self)@ == (PushState {
                last_id: next_id(old(self)@.last_id),
                state: if old(self)@.link_open {
                    old(self)@.state
                } else {
                    ConnectionState::Disconnected
                },
                ..old(self)@
            }),
            old(self)@.link_open == r is Ok,
            r matches Err(m) ==> m@ == "failed to send CONNECT message"@,
            r matches Ok(q) ==> q.id == next_id(old(self)@.last_id) && q.command
                == Command::Connect.code_spec() && q.subscribe is None,
            r matches Ok(q) ==> (q.connect matches Some(c) && c.tiger_id@
                == old(self)@.config.tiger_id@ && c.sign@ == sign@ && c.sdk_version@
                == sdk_version() && same_text(c.accept_version, Some("2")) && c.send_interval
                == Some(DEFAULT_SEND_INTERVAL) && c.receive_interval == Some(
                DEFAULT_RECEIVE_INTERVAL,
            ) && c.use_full_tick == Some(false)),
    {
        let q = build_connect_message(
            &mut self.ids,
            self.config.tiger_id.as_str(),
            sign,
            "rust-sdk/1.0.0",
            "2",
            DEFAULT_SEND_INTERVAL,
            DEFAULT_RECEIVE_INTERVAL,
            false,
        );
        if self.link_open {
            Ok(q)
        } else {
            self.state = ConnectionState::Disconnected;
            Err(owned("failed to send CONNECT message"))
        }
    }

    /// A HEARTBEAT request, to send: none when no writer is open. A request
    /// id is taken either way.
    pub fn send_heartbeat(&mut self) -> (r: Option<Request>)
        requires
            old(self).wf(),
            old(self)@.last_id < u32::MAX,
        ensures
            final(self).wf(),
            final(self)@ == (PushState { last_id: next_id(old(self)@.last_id), ..old(self)@ }),
            old(self)@.link_open == r is Some,
            r matches Some(q) ==> q.id == next_id(old(self)@.last_id) && q.command
                == Command::Heartbeat.code_spec() && q.connect is None && q.subscribe is None,
    {
        let q = build_heartbeat_message(&mut self.ids);
        if self.link_open {
            Some(q)
        } else {
            None
        }
    }

    /// Disconnects: the DISCONNECT request to send while the writer is
    /// still open (none otherwise; a request id is taken either way), and
    /// the action that follows, `Disconnected`, which runs the disconnect
    /// handler once. The client is then disconnected and its writer dropped,
    /// so nothing more goes out until it connects again.
    pub fn disconnect(&mut self) -> (r: (Option<Request>, ResponseAction))
        requires
            old(self).wf(),
            old(self)@.last_id < u32::MAX,
        ensures
            final(self).wf(),
            final(self)@ == (PushState {
                last_id: next_id(old(self)@.last_id),
                state: ConnectionState::Disconnected,
                link_open: false,
                ..old(self)@
            }),
            old(self)@.link_open == r.0 is Some,
            r.0 matches Some(q) ==> q.id == next_id(old(self)@.last_id) && q.command
                == Command::Disconnect.code_spec() && q.connect is None && q.subscribe is None,
            r.1 == ResponseAction::Disconnected,
    {
        let q = build_disconnect_message(&mut self.ids);
        let sent = if self.link_open {
            Some(q)
        } else {
            None
        };
        self.state = ConnectionState::Disconnected;
        self.link_open = false;
        (sent, ResponseAction::Disconnected)
    }

    /// The SUBSCRIBE request for `subject`, to send: none when no writer is
    /// open. A request id is taken either way.
    pub fn subscribe(
        &mut self,
        subject: &SubjectType,
        symbols: Option<&str>,
        account: Option<&str>,
        market: Option<&str>,
    ) -> (r: Option<Request>)
        requires
            old(self).wf(),
            old(self)@.last_id < u32::MAX,
        ensures
            final(self).wf(),
            final(self)@ == (PushState { last_id: next_id(old(self)@.last_id), ..old(self)@ }),
            old(self)@.link_open == r is Some,
            r matches Some(q) ==> q.id == next_id(old(self)@.last_id) && q.command
                == Command::Subscribe.code_spec() && q.connect is None,
            r matches Some(q) ==> (q.subscribe matches Some(s) && s.data_type == subject_data_type(
                *subject,
            ).code_spec() && same_text(s.symbols, symbols) && same_text(s.account, account)
                && same_text(s.market, market)),
    {
        let dt = subject_to_data_type(subject);
        let q = build_subscribe_message(&mut self.ids, dt, symbols, account, market);
        if self.link_open {
            Some(q)
        } else {
            None
        }
    }

    /// The UNSUBSCRIBE request for `subject`, to send: none when no writer
    /// is open. A request id is taken either way.
    pub fn unsubscribe(
        &mut self,
        subject: &SubjectType,
        symbols: Option<&str>,
        account: Option<&str>,
        market: Option<&str>,
    ) -> (r: Option<Request>)
        requires
            old(self).wf(),
            old(self)@.last_id < u32::MAX,
        ensures
            final(self).wf(),
            final(self)@ == (PushState { last_id: next_id(old(self)@.last_id), ..old(self)@ }),
            old(self)@.link_open == r is Some,
            r matches Some(q) ==> q.id == next_id(old(self)@.last_id) && q.command
                == Command::Unsubscribe.code_spec() && q.connect is None,
            r matches Some(q) ==> (q.subscribe matches Some(s) && s.data_type == subject_data_type(
                *subject,
            ).code_spec() && same_text(s.symbols, symbols) && same_text(s.account, account)
                && same_text(s.market, market)),
    {
        let dt = subject_to_data_type(subject);
        let q = build_unsubscribe_message(&mut self.ids, dt, symbols, account, market);
        if self.link_open {
            Some(q)
        } else {
            None
        }
    }

    /// Whether another request id is available.
    pub fn can_send(&self) -> (b: bool)
        ensures
            b == (self@.last_id < u32::MAX),
    {
        self.ids.has_next()
    }

    /// What to do with a message of the server; a CONNECTED message marks
    /// the client connected.
    pub fn handle_response(&mut self, response: &Response) -> (a: ResponseAction)
        requires
            old(self).wf(),
        ensures
            final(self).wf(),
            response_action_ok(*response, a),
            a == ResponseAction::Connected ==> final(self)@ == (PushState {
                state: ConnectionState::Connected,
                ..old(self)@
            }),
            a != ResponseAction::Connected ==> final(self)@ == old(self)@,
    {
        let a = dispatch_response(response);
        if let ResponseAction::Connected = a {
            self.state = ConnectionState::Connected;
        }
        a
    }

    /// Records `symbols` for `subject`.
    pub fn add_subscription(&mut self, subject: SubjectType, symbols: &[String])
        requires
            old(self).wf(),
        ensures
            final(self).wf(),
            final(self)@ == (PushState {
                subscriptions: SubscriptionState {
                    slots: old(self)@.subscriptions.slots.update(
                        crate::push::subscriptions::subject_slot(subject),
                        Some(
                            crate::push::subscriptions::append_new(
                                match old(self)@.subscriptions.slots[crate::push::subscriptions::subject_slot(
                                    subject,
                                )] {
                                    Some(cur) => cur,
                                    None => Seq::empty(),
                                },
                                crate::push::subscriptions::texts(symbols@),
                            ),
                        ),
                    ),
                    ..old(self)@.subscriptions
                },
                ..old(self)@
            }),
    {
        self.subscriptions.add_subscription(subject, symbols);
    }

    /// Drops the record of `subject`, or just `symbols` from it.
    pub fn remove_subscription(&mut self, subject: SubjectType, symbols: Option<&[String]>)
        requires
            old(self).wf(),
        ensures
            final(self).wf(),
            final(self)@ == (PushState {
                subscriptions: SubscriptionState {
                    slots: match symbols {
                        None => old(self)@.subscriptions.slots.update(
                            crate::push::subscriptions::subject_slot(subject),
                            None,
                        ),
                        Some(gone) => match old(self)@.subscriptions.slots[crate::push::subscriptions::subject_slot(
                            subject,
                        )] {
                            Some(cur) => {
                                let rest = crate::push::subscriptions::without(
                                    cur,
                                    crate::push::subscriptions::texts(gone@),
                                );
                                old(self)@.subscriptions.slots.update(
                                    crate::push::subscriptions::subject_slot(subject),
                                    if rest.len() == 0 {
                                        None
                                    } else {
                                        Some(rest)
                                    },
                                )
                            },
                            None => old(self)@.subscriptions.slots,
                        },
                    },
                    ..old(self)@.subscriptions
                },
                ..old(self)@
            }),
    {
        self.subscriptions.remove_subscription(subject, symbols);
    }

    /// The subscribed subjects with their symbols.
    pub fn get_subscriptions(&self) -> (r: Vec<(SubjectType, Vec<String>)>)
        requires
            self.wf(),
        ensures
            forall|k: int|
                0 <= k < r@.len() ==> #[trigger] self@.subscriptions.slots[crate::push::subscriptions::subject_slot(
                    r@[k].0,
                )] == Some(crate::push::subscriptions::texts(r@[k].1@)),
            forall|s: SubjectType|
                #![trigger self@.subscriptions.slots[crate::push::subscriptions::subject_slot(s)]]
                self@.subscriptions.slots[crate::push::subscriptions::subject_slot(s)] is Some
                    ==> exists|k: int| 0 <= k < r@.len() && r@[k].0 == s,
            forall|a: int, b: int| 0 <= a < b < r@.len() ==> r@[a].0 != r@[b].0,
    {
        self.subscriptions.get_subscriptions()
    }

    /// Records `subject` as subscribed for the account.
    pub fn add_account_sub(&mut self, subject: SubjectType)
        requires
            old(self).wf(),
        ensures
            final(self).wf(),
            final(self)@ == (PushState {
                subscriptions: SubscriptionState {
                    accounts: old(self)@.subscriptions.accounts.update(
                        crate::push::subscriptions::subject_slot(subject),
                        true,
                    ),
                    ..old(self)@.subscriptions
                },
                ..old(self)@
            }),
    {
        self.subscriptions.add_account_sub(subject);
    }

    /// Drops `subject` from the account subscriptions.
    pub fn remove_account_sub(&mut self, subject: &SubjectType)
        requires
            old(self).wf(),
        ensures
            final(self).wf(),
            final(self)@ == (PushState {
                subscriptions: SubscriptionState {
                    accounts: old(self)@.subscriptions.accounts.update(
                        crate::push::subscriptions::subject_slot(*subject),
                        false,
                    ),
                    ..old(self)@.subscriptions
                },
                ..old(self)@
            }),
    {
        self.subscriptions.remove_account_sub(subject);
    }

    /// The subjects subscribed for the account.
    pub fn get_account_subscriptions(&self) -> (r: Vec<SubjectType>)
        requires
            self.wf(),
        ensures
            forall|s: SubjectType| r@.contains(s) <==> self@.subscriptions.account_subjects().contains(s),
            forall|a: int, b: int| 0 <= a < b < r@.len() ==> r@[a] != r@[b],
    {
        self.subscriptions.get_account_subscriptions()
    }

    /// The requests that restore every subscription after a reconnection:
    /// the market-data subscriptions with their symbols, then the account
    /// subscriptions for the configured account. They take their request
    /// ids either way, and are none when no writer is open.
    pub fn resubscribe(&mut self) -> (r: Option<Vec<Request>>)
        requires
            old(self).wf(),
            old(self)@.last_id + 28 <= u32::MAX,
        ensures
            final(self).wf(),
            final(self)@ == (PushState {
                last_id: old(self)@.last_id + market_slots(old(self)@.subscriptions, 14).len()
                    + account_slots(old(self)@.subscriptions, 14).len(),
                ..old(self)@
            }),
            old(self)@.link_open == r is Some,
            r matches Some(rs) ==> ({
                let r = rs;
                let st = old(self)@.subscriptions;
                let ms = market_slots(st, 14);
                let acs = account_slots(st, 14);
                &&& r@.len() == ms.len() + acs.len()
                &&& forall|k: int|
                    0 <= k < ms.len() ==> market_request(
                        st,
                        ms[k],
                        old(self)@.last_id + k + 1,
                        #[trigger] r@[k],
                    )
                &&& forall|k: int|
                    0 <= k < acs.len() ==> account_request(
                        acs[k],
                        old(self)@.config.account@,
                        old(self)@.last_id + ms.len() + k + 1,
                        #[trigger] r@[ms.len() + k],
                    )
            }),
    {
        let rs = self.subscriptions.replay(&mut self.ids, self.config.account.as_str());
        if self.link_open {
            Some(rs)
        } else {
            None
        }
    }
}

/// The wait before the next reconnection attempt after one failed: twice
/// the last wait, at most 60 seconds.
pub open spec fn next_reconnect_nanos(current: nat) -> nat {
    if 2 * current > MAX_RECONNECT_INTERVAL_SECS * 1_000_000_000 {
        (MAX_RECONNECT_INTERVAL_SECS * 1_000_000_000) as nat
    } else {
        2 * current
    }
}

/// The wait before the next reconnection attempt after one failed.
pub fn next_reconnect_interval(current: Duration) -> (d: Duration)
    requires
        2 * current@ <= max_nanos(),
    ensures
        d@ == next_reconnect_nanos(current@),
{
    let max = Duration::from_secs(MAX_RECONNECT_INTERVAL_SECS);
    let doubled = current.as_nanos() * 2;
    match Duration::from_nanos_checked(doubled) {
        Some(d) => if d.longer_than(&max) {
            max
        } else {
            d
        },
        None => max,
    }
}

/// Waits between reconnection attempts never exceed 60 seconds once the
/// first has failed, and they do not shrink while below that bound.
pub proof fn law_reconnect_backoff_bounded(current: nat)
    ensures
        next_reconnect_nanos(current) <= 60_000_000_000,
        current <= 60_000_000_000 ==> next_reconnect_nanos(current) >= current,
{
}

} // verus!
