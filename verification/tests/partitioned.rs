use pulsar_discovery::ServiceDiscovery;
use pulsar_discovery::errors::ServiceDiscoveryError;
use pulsar_discovery::lookup::BrokerAddress;
use pulsar_discovery::messages::{
    PartitionedLookupType, PartitionedTopicMetadataResponse, ServerError,
};
use pulsar_discovery::partitions::{
    collect_partition_lookups, partition_topic_name, partition_topic_names,
    PartitionCountDirective,
};
use pulsar_discovery::urls::LookupUrl;

fn count_response(partitions: Option<u32>) -> PartitionedTopicMetadataResponse {
    PartitionedTopicMetadataResponse {
        response: Some(PartitionedLookupType::Success),
        partitions,
        error: None,
        message: None,
    }
}

fn count_not_ready() -> PartitionedTopicMetadataResponse {
    PartitionedTopicMetadataResponse {
        response: Some(PartitionedLookupType::Failed),
        partitions: None,
        error: Some(ServerError::ServiceNotReady),
        message: Some("not ready".to_string()),
    }
}

fn address(n: u32) -> BrokerAddress {
    let text = format!("pulsar://broker{n}:6650");
    BrokerAddress {
        url: LookupUrl::parse(&text).expect("valid URL"),
        broker_url: format!("broker{n}:6650"),
        proxy: false,
    }
}

fn discovery() -> ServiceDiscovery {
    ServiceDiscovery::with_manager(address(0))
}

#[test]
fn partition_count_completes_on_success() {
    let mut state = discovery().start_partition_count("t".to_string());
    let d = state.handle_response(&count_response(Some(5)));
    assert!(matches!(d, PartitionCountDirective::Complete(5)));
    assert_eq!(state.retries_left, 20);
}

#[test]
fn partition_count_without_partitions_is_a_query_error() {
    let mut state = discovery().start_partition_count("t".to_string());
    let mut resp = count_response(None);
    resp.message = Some("no metadata".to_string());
    let d = state.handle_response(&resp);
    match d {
        PartitionCountDirective::Fail(ServiceDiscoveryError::Query(code, message)) => {
            assert_eq!(code, None);
            assert_eq!(message.as_deref(), Some("no metadata"));
        },
        _ => panic!("a success response without a count must be a Query failure"),
    }
}

#[test]
fn partition_count_retries_service_not_ready() {
    let mut state = discovery().start_partition_count("t".to_string());
    for attempt in 0..20 {
        let d = state.handle_response(&count_not_ready());
        assert!(matches!(d, PartitionCountDirective::Retry), "attempt {attempt}");
    }
    assert_eq!(state.retries_left, 0);
    let d = state.handle_response(&count_not_ready());
    match d {
        PartitionCountDirective::Fail(ServiceDiscoveryError::Query(code, message)) => {
            assert_eq!(code, Some(ServerError::ServiceNotReady));
            assert_eq!(message.as_deref(), Some("not ready"));
        },
        _ => panic!("the twenty-first answer must fail the query"),
    }
}

#[test]
fn partition_names_count_up_from_zero() {
    assert_eq!(partition_topic_name("t", 0), "t-partition-0");
    assert_eq!(partition_topic_name("t", 12), "t-partition-12");
    assert_eq!(
        partition_topic_name("x", 4294967295),
        "x-partition-4294967295"
    );

    let names = partition_topic_names("t", 3);
    assert_eq!(names, vec!["t-partition-0", "t-partition-1", "t-partition-2"]);
    assert!(partition_topic_names("t", 0).is_empty());
}

#[test]
fn zero_partitions_resolve_to_an_empty_list() {
    let names = partition_topic_names("t", 0);
    let results: Vec<Result<BrokerAddress, ServiceDiscoveryError>> = Vec::new();
    let pairs = collect_partition_lookups(&names, &results).expect("nothing can fail");
    assert!(pairs.is_empty());
}

#[test]
fn three_partitions_resolve_in_ascending_order() {
    let names = partition_topic_names("t", 3);
    let results: Vec<Result<BrokerAddress, ServiceDiscoveryError>> =
        vec![Ok(address(1)), Ok(address(2)), Ok(address(3))];
    let pairs = collect_partition_lookups(&names, &results).expect("all lookups succeeded");
    assert_eq!(pairs.len(), 3);
    for (i, (name, addr)) in pairs.iter().enumerate() {
        assert_eq!(name, &format!("t-partition-{i}"));
        assert_eq!(addr.broker_url, format!("broker{}:6650", i + 1));
    }
}

#[test]
fn one_failed_partition_fails_the_whole_lookup() {
    let names = partition_topic_names("t", 3);
    let results: Vec<Result<BrokerAddress, ServiceDiscoveryError>> = vec![
        Ok(address(1)),
        Err(ServiceDiscoveryError::NotFound),
        Ok(address(3)),
    ];
    match collect_partition_lookups(&names, &results) {
        Err(ServiceDiscoveryError::NotFound) => {},
        _ => panic!("a failed partition must fail the whole lookup, with its error"),
    }
}

#[test]
fn first_error_in_partition_order_wins() {
    let names = partition_topic_names("t", 3);
    let results: Vec<Result<BrokerAddress, ServiceDiscoveryError>> = vec![
        Ok(address(1)),
        Err(ServiceDiscoveryError::Query(None, Some("first".to_string()))),
        Err(ServiceDiscoveryError::NotFound),
    ];
    match collect_partition_lookups(&names, &results) {
        Err(ServiceDiscoveryError::Query(None, message)) => {
            assert_eq!(message.as_deref(), Some("first"));
        },
        _ => panic!("the first error in partition order must surface"),
    }
}
