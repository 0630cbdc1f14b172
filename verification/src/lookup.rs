//! The topic lookup resolver: parsing a lookup response into an outcome,
//! building the broker address it designates, and the redirect/retry state
//! machine that drives a whole lookup.
//!
//! The caller owns all network traffic. It starts a [`LookupState`], sends
//! a lookup query, and feeds each response into
//! [`LookupState::handle_response`]; the returned [`LookupDirective`] says
//! what to do next (back off and resend, connect to a new broker and
//! resend, finish, or fail).

use vstd::prelude::*;
use vstd::string::StringExecFns;
use crate::errors::{ServiceDiscoveryError, ServiceDiscoveryErrorView, ConnectionError};
use crate::messages::{LookupTopicResponse, LookupTopicResponseView, LookupType, ServerError,
    clone_opt_string};
use crate::strutil::spec_decimal;
use crate::urls::{LookupUrl, LookupUrlView, spec_url_of, url_parse_ok};

verus! {

/// Default port of a TLS broker service URL that names none.
pub const DEFAULT_TLS_PORT: u16 = 6651;

/// Default port of a plain broker service URL that names none.
pub const DEFAULT_PLAIN_PORT: u16 = 6650;

/// How many "service not ready" answers one lookup tolerates before it
/// fails; each costs one fixed backoff.
pub const MAX_RETRIES: u8 = 20;

/// The fixed backoff, in milliseconds, that a `Retry` directive asks the
/// caller to wait before resending.
pub const RETRY_BACKOFF_MILLIS: u64 = 500;

/// Where a client must connect to reach the broker that owns a topic.
///
/// `url` is the address to open a transport connection to (the broker's
/// own service URL or, behind a proxy, the cluster's base URL);
/// `broker_url` is the `"host:port"` identity of the owning broker, as the
/// remote peer expects it in the connect handshake; `proxy` records
/// whether traffic must be tunneled through the base connection's proxy.
pub struct BrokerAddress {
    pub url: LookupUrl,
    pub broker_url: String,
    pub proxy: bool,
}

#[verifier::ext_equal]
pub struct BrokerAddressView {
    pub url: LookupUrlView,
    pub broker_url: Seq<char>,
    pub proxy: bool,
}

impl View for BrokerAddress {
    type V = BrokerAddressView;

    open spec fn view(&self) -> BrokerAddressView {
        BrokerAddressView { url: self.url@, broker_url: self.broker_url@, proxy: self.proxy }
    }
}

impl Clone for BrokerAddress {
    /// The copy designates the same broker.
    fn clone(&self) -> (r: Self)
        ensures
            r@ == self@,
    {
        BrokerAddress {
            url: self.url.clone(),
            broker_url: self.broker_url.clone(),
            proxy: self.proxy,
        }
    }
}

/// What one successful lookup response says: the broker's plain and TLS
/// service URLs, and the proxy / redirect / authoritative flags. Lives
/// only within one resolution step.
pub struct LookupOutcome {
    pub broker_url: LookupUrl,
    pub broker_url_tls: Option<LookupUrl>,
    pub proxy: bool,
    pub redirect: bool,
    pub authoritative: bool,
}

#[verifier::ext_equal]
pub struct LookupOutcomeView {
    pub broker_url: LookupUrlView,
    pub broker_url_tls: Option<LookupUrlView>,
    pub proxy: bool,
    pub redirect: bool,
    pub authoritative: bool,
}

impl View for LookupOutcome {
    type V = LookupOutcomeView;

    open spec fn view(&self) -> LookupOutcomeView {
        LookupOutcomeView {
            broker_url: self.broker_url@,
            broker_url_tls: match self.broker_url_tls {
                Some(u) => Some(u@),
                None => None,
            },
            proxy: self.proxy,
            redirect: self.redirect,
            authoritative: self.authoritative,
        }
    }
}

/// The outcome that a response parses to, or `None` where the response
/// carries no broker service URL or a URL the parser rejects.
pub open spec fn spec_parse_outcome(r: LookupTopicResponseView) -> Option<LookupOutcomeView> {
    if r.broker_service_url is None {
        None
    } else if !url_parse_ok(r.broker_service_url->0) {
        None
    } else if r.broker_service_url_tls matches Some(t) && !url_parse_ok(t) {
        None
    } else {
        Some(LookupOutcomeView {
            broker_url: spec_url_of(r.broker_service_url->0),
            broker_url_tls: match r.broker_service_url_tls {
                Some(t) => Some(spec_url_of(t)),
                None => None,
            },
            proxy: r.proxy_through_service_url == Some(true),
            redirect: r.response == Some(LookupType::Redirect),
            authoritative: r.authoritative == Some(true),
        })
    }
}

/// Extracts the outcome of a lookup response: the proxy and authoritative
/// flags (absent means false), whether the lookup type is a redirect, and
/// the parsed broker service URLs. `NotFound` when the response has no
/// broker service URL or when either URL fails to parse.
pub fn parse_lookup_outcome(resp: &LookupTopicResponse) -> (r: Result<
    LookupOutcome,
    ServiceDiscoveryError,
>)
    ensures
        r is Ok <==> spec_parse_outcome(resp@) is Some,
        r matches Ok(o) ==> spec_parse_outcome(resp@) == Some(o@),
        r matches Err(e) ==> e@ == ServiceDiscoveryErrorView::NotFound,
{
    let plain = match &resp.broker_service_url {
        None => {
            return Err(ServiceDiscoveryError::NotFound);
        },
        Some(s) => match LookupUrl::parse(s.as_str()) {
            None => {
                return Err(ServiceDiscoveryError::NotFound);
            },
            Some(u) => u,
        },
    };
    let tls = match &resp.broker_service_url_tls {
        None => None,
        Some(s) => match LookupUrl::parse(s.as_str()) {
            None => {
                return Err(ServiceDiscoveryError::NotFound);
            },
            Some(u) => Some(u),
        },
    };
    let o = LookupOutcome {
        broker_url: plain,
        broker_url_tls: tls,
        proxy: resp.proxy_through_service_url.unwrap_or(false),
        redirect: matches!(resp.response, Some(LookupType::Redirect)),
        authoritative: resp.authoritative.unwrap_or(false),
    };
    proof {
        assert(spec_parse_outcome(resp@) == Some(o@));
    }
    Ok(o)
}

/// The URL a step connects by: the TLS service URL when the broker offers
/// one, else the plain one.
pub open spec fn spec_chosen_url(o: LookupOutcomeView) -> LookupUrlView {
    match o.broker_url_tls {
        Some(t) => t,
        None => o.broker_url,
    }
}

/// The port a URL without an explicit one gets: 6651 when the broker
/// offered a TLS URL, 6650 otherwise.
pub open spec fn spec_chosen_port(o: LookupOutcomeView) -> u16 {
    match spec_chosen_url(o).port {
        Some(p) => p,
        None => if o.broker_url_tls is Some {
            DEFAULT_TLS_PORT
        } else {
            DEFAULT_PLAIN_PORT
        },
    }
}

/// The `"host:port"` rendering of a broker identity.
pub open spec fn spec_host_port(host: Seq<char>, port: u16) -> Seq<char> {
    host + ":"@ + spec_decimal(port as nat)
}

/// The broker address an outcome designates, given the cluster's base URL
/// and whether the chain already goes through a proxy. `None` where the
/// chosen service URL names no host, so no `"host:port"` identity exists.
pub open spec fn spec_broker_address(
    o: LookupOutcomeView,
    base_url: LookupUrlView,
    proxied: bool,
) -> Option<BrokerAddressView> {
    let chosen = spec_chosen_url(o);
    match chosen.host {
        None => None,
        Some(h) => Some(BrokerAddressView {
            url: if proxied || o.proxy {
                base_url
            } else {
                chosen
            },
            broker_url: spec_host_port(h, spec_chosen_port(o)),
            proxy: proxied || o.proxy,
        }),
    }
}

/// Builds the broker address an outcome designates. `None` where the
/// chosen service URL names no host.
pub fn broker_address_of_outcome(o: &LookupOutcome, base_url: &LookupUrl, proxied: bool) -> (r:
    Option<BrokerAddress>)
    ensures
        r is Some <==> spec_broker_address(o@, base_url@, proxied) is Some,
        r matches Some(a) ==> spec_broker_address(o@, base_url@, proxied) == Some(a@),
{
    let chosen: &LookupUrl = match &o.broker_url_tls {
        Some(t) => t,
        None => &o.broker_url,
    };
    let fallback: u16 = if o.broker_url_tls.is_some() {
        DEFAULT_TLS_PORT
    } else {
        DEFAULT_PLAIN_PORT
    };
    match &chosen.host {
        None => None,
        Some(h) => {
            let port: u16 = match chosen.port {
                Some(p) => p,
                None => fallback,
            };
            let mut broker_url: String = h.clone();
            broker_url.append(":");
            crate::strutil::push_decimal(&mut broker_url, port as u32);
            let url: LookupUrl = if proxied || o.proxy {
                base_url.clone()
            } else {
                chosen.clone()
            };
            let a = BrokerAddress { url, broker_url, proxy: proxied || o.proxy };
            proof {
                assert(a@.broker_url =~= spec_host_port(h@, spec_chosen_port(o@)));
                assert(spec_broker_address(o@, base_url@, proxied) == Some(a@));
            }
            Some(a)
        },
    }
}

/// The loop state of one topic lookup: the sticky proxy flag, the
/// authoritative flag to send on the next query, the address the current
/// connection points at, and the remaining retry budget.
pub struct LookupState {
    pub topic: String,
    pub base_url: LookupUrl,
    pub proxied_query: bool,
    pub is_authoritative: bool,
    pub broker_address: BrokerAddress,
    pub retries_left: u8,
}

#[verifier::ext_equal]
pub struct LookupStateView {
    pub topic: Seq<char>,
    pub base_url: LookupUrlView,
    pub proxied_query: bool,
    pub is_authoritative: bool,
    pub broker_address: BrokerAddressView,
    pub retries_left: u8,
}

impl View for LookupState {
    type V = LookupStateView;

    open spec fn view(&self) -> LookupStateView {
        LookupStateView {
            topic: self.topic@,
            base_url: self.base_url@,
            proxied_query: self.proxied_query,
            is_authoritative: self.is_authoritative,
            broker_address: self.broker_address@,
            retries_left: self.retries_left,
        }
    }
}

/// What the caller must do after feeding a response in.
///
/// `Retry`: wait the fixed 500ms backoff, then resend the query on the
/// same connection. `Redirect`: connect to `broker_address` and resend the
/// query there. `Resolved`: connect to (or confirm) `broker_address` and
/// return it. `Fail`: surface the error.
pub enum LookupDirective {
    Retry,
    Redirect,
    Resolved,
    Fail(ServiceDiscoveryError),
}

#[verifier::ext_equal]
pub enum LookupDirectiveView {
    Retry,
    Redirect,
    Resolved,
    Fail(ServiceDiscoveryErrorView),
}

impl View for LookupDirective {
    type V = LookupDirectiveView;

    open spec fn view(&self) -> LookupDirectiveView {
        match self {
            LookupDirective::Retry => LookupDirectiveView::Retry,
            LookupDirective::Redirect => LookupDirectiveView::Redirect,
            LookupDirective::Resolved => LookupDirectiveView::Resolved,
            LookupDirective::Fail(e) => LookupDirectiveView::Fail(e@),
        }
    }
}

/// The state a lookup of `topic` starts in, given the cluster's base
/// address: not proxied, not authoritative, pointing at the base, with the
/// full retry budget.
pub open spec fn spec_initial_lookup_state(
    topic: Seq<char>,
    base: BrokerAddressView,
) -> LookupStateView {
    LookupStateView {
        topic,
        base_url: base.url,
        proxied_query: false,
        is_authoritative: false,
        broker_address: base,
        retries_left: MAX_RETRIES,
    }
}

/// Whether a response reports a failed lookup: no lookup type at all, or
/// an explicit `Failed` one.
pub open spec fn spec_response_failed(r: LookupTopicResponseView) -> bool {
    r.response is None || r.response == Some(LookupType::Failed)
}

/// Whether a response is a retryable "service not ready" failure.
pub open spec fn spec_service_not_ready(r: LookupTopicResponseView) -> bool {
    spec_response_failed(r) && r.error == Some(ServerError::ServiceNotReady)
}

/// One transition of the lookup state machine: the state after a response
/// and the directive it issues.
///
/// A failed response is retried while it says "service not ready" and
/// budget remains, else it fails with the server's error and message. A
/// successful response is parsed; a response without a usable broker URL
/// fails with `NotFound`. Otherwise the authoritative flag for the next
/// query is the outcome's, the proxy flag sticks once set, the broker
/// address is rebuilt, and the directive follows the redirect flag.
pub open spec fn spec_lookup_step(s: LookupStateView, r: LookupTopicResponseView) -> (
    LookupStateView,
    LookupDirectiveView,
) {
    if spec_response_failed(r) {
        if r.error == Some(ServerError::ServiceNotReady) && s.retries_left > 0 {
            (
                LookupStateView { retries_left: (s.retries_left - 1) as u8, ..s },
                LookupDirectiveView::Retry,
            )
        } else {
            (s, LookupDirectiveView::Fail(ServiceDiscoveryErrorView::Query(r.error, r.message)))
        }
    } else {
        match spec_parse_outcome(r) {
            None => (s, LookupDirectiveView::Fail(ServiceDiscoveryErrorView::NotFound)),
            Some(o) => match spec_broker_address(o, s.base_url, s.proxied_query) {
                None => (s, LookupDirectiveView::Fail(ServiceDiscoveryErrorView::NotFound)),
                Some(addr) => (
                    LookupStateView {
                        is_authoritative: o.authoritative,
                        proxied_query: addr.proxy,
                        broker_address: addr,
                        ..s
                    },
                    if o.redirect {
                        LookupDirectiveView::Redirect
                    } else {
                        LookupDirectiveView::Resolved
                    },
                ),
            },
        }
    }
}

impl LookupState {
    /// The state a lookup of `topic` starts in against the cluster whose
    /// base address is `base`.
    pub fn start(topic: String, base: &BrokerAddress) -> (s: Self)
        ensures
            s@ == spec_initial_lookup_state(topic@, base@),
    {
        let s = LookupState {
            topic,
            base_url: base.url.clone(),
            proxied_query: false,
            is_authoritative: false,
            broker_address: base.clone(),
            retries_left: MAX_RETRIES,
        };
        proof {
            assert(s@ =~= spec_initial_lookup_state(s.topic@, base@));
        }
        s
    }

    /// Feeds one lookup response into the state machine and says what to
    /// do next; exactly the transition of [`spec_lookup_step`].
    pub fn handle_response(&mut self, resp: &LookupTopicResponse) -> (d: LookupDirective)
        ensures
            final(self)@ == spec_lookup_step(old(self)@, resp@).0,
            d@ == spec_lookup_step(old(self)@, resp@).1,
    {
        let failed = match resp.response {
            None => true,
            Some(LookupType::Failed) => true,
            Some(_) => false,
        };
        if failed {
            if matches!(resp.error, Some(ServerError::ServiceNotReady)) && self.retries_left > 0 {
                self.retries_left = self.retries_left - 1;
                proof {
                    assert(self@ =~= spec_lookup_step(old(self)@, resp@).0);
                }
                LookupDirective::Retry
            } else {
                LookupDirective::Fail(
                    ServiceDiscoveryError::Query(resp.error, clone_opt_string(&resp.message)),
                )
            }
        } else {
            let outcome = match parse_lookup_outcome(resp) {
                Err(e) => {
                    return LookupDirective::Fail(e);
                },
                Ok(o) => o,
            };
            match broker_address_of_outcome(&outcome, &self.base_url, self.proxied_query) {
                None => LookupDirective::Fail(ServiceDiscoveryError::NotFound),
                Some(addr) => {
                    self.is_authoritative = outcome.authoritative;
                    self.proxied_query = addr.proxy;
                    self.broker_address = addr;
                    proof {
                        assert(self@ =~= spec_lookup_step(old(self)@, resp@).0);
                    }
                    if outcome.redirect {
                        LookupDirective::Redirect
                    } else {
                        LookupDirective::Resolved
                    }
                },
            }
        }
    }
}

/// What the caller must do when sending a query fails.
///
/// `Reconnect`: acquire a fresh connection and resend the same query,
/// once. `Fail`: surface the transport error.
pub enum SendFailureDirective {
    Reconnect,
    Fail(ServiceDiscoveryError),
}

#[verifier::ext_equal]
pub enum SendFailureDirectiveView {
    Reconnect,
    Fail(ServiceDiscoveryErrorView),
}

impl View for SendFailureDirective {
    type V = SendFailureDirectiveView;

    open spec fn view(&self) -> SendFailureDirectiveView {
        match self {
            SendFailureDirective::Reconnect => SendFailureDirectiveView::Reconnect,
            SendFailureDirective::Fail(e) => SendFailureDirectiveView::Fail(e@),
        }
    }
}

/// Decides what a failed send of a query means: a closed connection is
/// recovered by reconnecting and resending exactly once; a second failure,
/// or any other transport error, is fatal.
pub fn on_send_failure(e: ConnectionError, already_resent: bool) -> (d: SendFailureDirective)
    ensures
        d@ == if e@ is Disconnected && !already_resent {
            SendFailureDirectiveView::Reconnect
        } else {
            SendFailureDirectiveView::Fail(ServiceDiscoveryErrorView::Connection(e@))
        },
{
    match e {
        ConnectionError::Disconnected => {
            if already_resent {
                SendFailureDirective::Fail(
                    ServiceDiscoveryError::Connection(ConnectionError::Disconnected),
                )
            } else {
                SendFailureDirective::Reconnect
            }
        },
        other => SendFailureDirective::Fail(ServiceDiscoveryError::Connection(other)),
    }
}

/// A step that resolves yields an address whose `broker_url` is the TLS
/// URL's `"host:port"` (port 6651 when it names none) whenever the
/// response offered a TLS URL, and the plain URL's `"host:port"` (port
/// 6650 when it names none) otherwise.
pub proof fn lemma_resolved_broker_url_prefers_tls(
    s: LookupStateView,
    r: LookupTopicResponseView,
)
    requires
        spec_lookup_step(s, r).1 == LookupDirectiveView::Resolved,
    ensures
        spec_parse_outcome(r) is Some,
        ({
            let o = spec_parse_outcome(r)->0;
            let built = spec_lookup_step(s, r).0.broker_address.broker_url;
            &&& (o.broker_url_tls matches Some(u) ==> u.host is Some && built == spec_host_port(
                u.host->0,
                match u.port {
                    Some(p) => p,
                    None => DEFAULT_TLS_PORT,
                },
            ))
            &&& (o.broker_url_tls is None ==> o.broker_url.host is Some && built == spec_host_port(
                o.broker_url.host->0,
                match o.broker_url.port {
                    Some(p) => p,
                    None => DEFAULT_PLAIN_PORT,
                },
            ))
        }),
{
}

/// A non-failed response that carries no broker service URL makes the
/// step fail with `NotFound` — never with `Query` — and leaves the state
/// unchanged.
pub proof fn lemma_missing_broker_url_is_not_found(
    s: LookupStateView,
    r: LookupTopicResponseView,
)
    requires
        !spec_response_failed(r),
        r.broker_service_url is None,
    ensures
        spec_lookup_step(s, r).0 == s,
        spec_lookup_step(s, r).1 == LookupDirectiveView::Fail(ServiceDiscoveryErrorView::NotFound),
{
}

/// A redirect answer followed by a non-redirect answer that designates a
/// broker resolves in exactly two transitions, and the state between them
/// — the one whose authoritative flag is sent with the second query —
/// carries the flag from the first answer's outcome.
pub proof fn lemma_redirect_then_resolve(
    s: LookupStateView,
    r1: LookupTopicResponseView,
    r2: LookupTopicResponseView,
)
    requires
        spec_lookup_step(s, r1).1 == LookupDirectiveView::Redirect,
        !spec_response_failed(r2),
        spec_parse_outcome(r2) matches Some(o2) && !o2.redirect && spec_broker_address(
            o2,
            s.base_url,
            spec_lookup_step(s, r1).0.proxied_query,
        ) is Some,
    ensures
        spec_lookup_step(s, r1).0.is_authoritative == spec_parse_outcome(r1)->0.authoritative,
        spec_lookup_step(spec_lookup_step(s, r1).0, r2).1 == LookupDirectiveView::Resolved,
{
}

} // verus!
