use pulsar_discovery::ServiceDiscovery;
use pulsar_discovery::errors::{ConnectionError, ServiceDiscoveryError};
use pulsar_discovery::lookup::{
    parse_lookup_outcome, on_send_failure, BrokerAddress, LookupDirective, LookupState,
    SendFailureDirective,
};
use pulsar_discovery::messages::{LookupType, LookupTopicResponse, ServerError};
use pulsar_discovery::urls::LookupUrl;

fn url(text: &str) -> LookupUrl {
    LookupUrl::parse(text).expect("valid URL")
}

fn base_address() -> BrokerAddress {
    BrokerAddress {
        url: url("pulsar://base:6650"),
        broker_url: "base:6650".to_string(),
        proxy: false,
    }
}

fn response(
    response: Option<LookupType>,
    plain: Option<&str>,
    tls: Option<&str>,
) -> LookupTopicResponse {
    LookupTopicResponse {
        response,
        broker_service_url: plain.map(|s| s.to_string()),
        broker_service_url_tls: tls.map(|s| s.to_string()),
        proxy_through_service_url: None,
        authoritative: None,
        error: None,
        message: None,
    }
}

fn not_ready_response() -> LookupTopicResponse {
    LookupTopicResponse {
        response: Some(LookupType::Failed),
        broker_service_url: None,
        broker_service_url_tls: None,
        proxy_through_service_url: None,
        authoritative: None,
        error: Some(ServerError::ServiceNotReady),
        message: Some("not ready".to_string()),
    }
}

#[test]
fn parse_url_reads_host_and_port() {
    let u = url("pulsar://broker1:1234");
    assert_eq!(u.host.as_deref(), Some("broker1"));
    assert_eq!(u.port, Some(1234));

    let u = url("pulsar+ssl://broker2");
    assert_eq!(u.host.as_deref(), Some("broker2"));
    assert_eq!(u.port, None);

    assert!(LookupUrl::parse("no such url").is_none());
}

#[test]
fn broker_url_prefers_tls_with_default_port() {
    let mut state = LookupState::start("t".to_string(), &base_address());
    let resp = response(
        Some(LookupType::Connect),
        Some("pulsar://broker1:6650"),
        Some("pulsar+ssl://broker1"),
    );
    let d = state.handle_response(&resp);
    assert!(matches!(d, LookupDirective::Resolved));
    assert_eq!(state.broker_address.broker_url, "broker1:6651");
    assert_eq!(state.broker_address.url.text, "pulsar+ssl://broker1");
    assert!(!state.broker_address.proxy);
}

#[test]
fn broker_url_falls_back_to_plain_with_default_port() {
    let mut state = LookupState::start("t".to_string(), &base_address());
    let resp = response(Some(LookupType::Connect), Some("pulsar://broker1"), None);
    let d = state.handle_response(&resp);
    assert!(matches!(d, LookupDirective::Resolved));
    assert_eq!(state.broker_address.broker_url, "broker1:6650");
    assert_eq!(state.broker_address.url.text, "pulsar://broker1");
}

#[test]
fn broker_url_keeps_explicit_ports() {
    let mut state = LookupState::start("t".to_string(), &base_address());
    let resp = response(
        Some(LookupType::Connect),
        Some("pulsar://broker1:6650"),
        Some("pulsar+ssl://broker1:7001"),
    );
    let d = state.handle_response(&resp);
    assert!(matches!(d, LookupDirective::Resolved));
    assert_eq!(state.broker_address.broker_url, "broker1:7001");

    let mut state = LookupState::start("t".to_string(), &base_address());
    let resp = response(Some(LookupType::Connect), Some("pulsar://broker9:65535"), None);
    state.handle_response(&resp);
    assert_eq!(state.broker_address.broker_url, "broker9:65535");
}

#[test]
fn proxy_flag_sticks_across_redirects() {
    let mut state = LookupState::start("t".to_string(), &base_address());
    let mut proxied = response(
        Some(LookupType::Redirect),
        Some("pulsar://broker1:6650"),
        None,
    );
    proxied.proxy_through_service_url = Some(true);
    let d = state.handle_response(&proxied);
    assert!(matches!(d, LookupDirective::Redirect));
    assert!(state.broker_address.proxy);
    assert_eq!(state.broker_address.url.text, "pulsar://base:6650");

    // The next hop says nothing of a proxy, yet the chain stays proxied
    // and keeps connecting by the base URL.
    let plain = response(Some(LookupType::Connect), Some("pulsar://broker2:6650"), None);
    let d = state.handle_response(&plain);
    assert!(matches!(d, LookupDirective::Resolved));
    assert!(state.broker_address.proxy);
    assert_eq!(state.broker_address.url.text, "pulsar://base:6650");
    assert_eq!(state.broker_address.broker_url, "broker2:6650");
}

#[test]
fn service_not_ready_is_retried_twenty_times() {
    let mut state = LookupState::start("t".to_string(), &base_address());
    for attempt in 0..20 {
        let d = state.handle_response(&not_ready_response());
        assert!(matches!(d, LookupDirective::Retry), "attempt {attempt}");
    }
    assert_eq!(state.retries_left, 0);
    let d = state.handle_response(&not_ready_response());
    match d {
        LookupDirective::Fail(ServiceDiscoveryError::Query(code, message)) => {
            assert_eq!(code, Some(ServerError::ServiceNotReady));
            assert_eq!(message.as_deref(), Some("not ready"));
        },
        _ => panic!("the twenty-first answer must fail the lookup"),
    }
}

#[test]
fn other_server_errors_fail_at_once() {
    let mut state = LookupState::start("t".to_string(), &base_address());
    let mut resp = not_ready_response();
    resp.error = Some(ServerError::Other(3));
    resp.message = Some("no such topic".to_string());
    let d = state.handle_response(&resp);
    match d {
        LookupDirective::Fail(ServiceDiscoveryError::Query(code, message)) => {
            assert_eq!(code, Some(ServerError::Other(3)));
            assert_eq!(message.as_deref(), Some("no such topic"));
        },
        _ => panic!("a non-retryable server error must fail the lookup"),
    }
    assert_eq!(state.retries_left, 20);
}

#[test]
fn missing_broker_url_is_not_found() {
    let resp = response(Some(LookupType::Connect), None, None);
    match parse_lookup_outcome(&resp) {
        Err(ServiceDiscoveryError::NotFound) => {},
        _ => panic!("a response without a broker URL must be NotFound"),
    }

    let mut state = LookupState::start("t".to_string(), &base_address());
    let d = state.handle_response(&resp);
    assert!(matches!(
        d,
        LookupDirective::Fail(ServiceDiscoveryError::NotFound)
    ));
}

#[test]
fn unparsable_broker_url_is_not_found() {
    let resp = response(Some(LookupType::Connect), Some("::not a url::"), None);
    assert!(matches!(
        parse_lookup_outcome(&resp),
        Err(ServiceDiscoveryError::NotFound)
    ));

    let resp = response(
        Some(LookupType::Connect),
        Some("pulsar://broker1:6650"),
        Some("::not a url::"),
    );
    assert!(matches!(
        parse_lookup_outcome(&resp),
        Err(ServiceDiscoveryError::NotFound)
    ));
}

#[test]
fn redirect_then_resolve_takes_two_round_trips() {
    let discovery = ServiceDiscovery::with_manager(base_address());
    let mut state = discovery.start_topic_lookup("t".to_string());
    assert!(!state.is_authoritative);

    let mut first = response(Some(LookupType::Redirect), Some("pulsar://broker1:6650"), None);
    first.authoritative = Some(true);
    let d = state.handle_response(&first);
    assert!(matches!(d, LookupDirective::Redirect));
    // The flag from the first answer's outcome rides on the second query.
    assert!(state.is_authoritative);
    assert_eq!(state.broker_address.broker_url, "broker1:6650");

    let second = response(Some(LookupType::Connect), Some("pulsar://broker2:6650"), None);
    let d = state.handle_response(&second);
    assert!(matches!(d, LookupDirective::Resolved));
    assert_eq!(state.broker_address.broker_url, "broker2:6650");
}

#[test]
fn disconnected_send_reconnects_once() {
    assert!(matches!(
        on_send_failure(ConnectionError::Disconnected, false),
        SendFailureDirective::Reconnect
    ));
    match on_send_failure(ConnectionError::Disconnected, true) {
        SendFailureDirective::Fail(ServiceDiscoveryError::Connection(
            ConnectionError::Disconnected,
        )) => {},
        _ => panic!("a second disconnect must be fatal"),
    }
    match on_send_failure(ConnectionError::Other("broken pipe".to_string()), false) {
        SendFailureDirective::Fail(ServiceDiscoveryError::Connection(ConnectionError::Other(
            m,
        ))) => assert_eq!(m, "broken pipe"),
        _ => panic!("any other transport error must be fatal"),
    }
}

#[test]
fn with_manager_starts_a_fresh_lookup() {
    let discovery = ServiceDiscovery::with_manager(base_address());
    let state = discovery.start_topic_lookup("persistent://tenant/ns/topic".to_string());
    assert_eq!(state.topic, "persistent://tenant/ns/topic");
    assert_eq!(state.retries_left, 20);
    assert!(!state.proxied_query);
    assert!(!state.is_authoritative);
    assert_eq!(state.broker_address.broker_url, "base:6650");
    assert_eq!(state.base_url.text, "pulsar://base:6650");
}
