//! Topic-to-broker resolution for a client of a distributed pub/sub
//! messaging cluster.
//!
//! Given a topic name, the library decides which broker owns it: it drives
//! a redirect/retry state machine over lookup responses, honors proxy
//! indirection, and resolves partitioned topics into their partitions.
//! Network I/O is left to the caller: the caller sends the queries this
//! library asks for and feeds each response back into the state machine.

use vstd::prelude::*;

pub mod chain;
pub mod errors;
pub mod lookup;
pub mod messages;
pub mod partitions;
pub mod strutil;
pub mod urls;

use crate::lookup::{BrokerAddress, LookupState, spec_initial_lookup_state, MAX_RETRIES};
use crate::partitions::{PartitionCountState, PartitionCountStateView};

verus! {

/// A single interface to start resolving topics against a cluster.
///
/// It is built from the one thing the connection manager contributes to
/// the decisions here: the cluster's base address. Connections, queries
/// and backoff stay with the caller, which drives the state machines this
/// type starts.
pub struct ServiceDiscovery {
    pub base_address: BrokerAddress,
}

impl ServiceDiscovery {
    /// Builds a resolver for the cluster whose base address the connection
    /// manager reports.
    pub fn with_manager(base_address: BrokerAddress) -> (s: Self)
        ensures
            s.base_address@ == base_address@,
    {
        ServiceDiscovery { base_address }
    }

    /// Starts the lookup of the broker address for a topic; feed each
    /// response into [`LookupState::handle_response`].
    pub fn start_topic_lookup(&self, topic: String) -> (s: LookupState)
        ensures
            s@ == spec_initial_lookup_state(topic@, self.base_address@),
    {
        LookupState::start(topic, &self.base_address)
    }

    /// Starts the query for the number of partitions of a partitioned
    /// topic; feed each response into
    /// [`PartitionCountState::handle_response`].
    pub fn start_partition_count(&self, topic: String) -> (s: PartitionCountState)
        ensures
            s@ == (PartitionCountStateView { topic: topic@, retries_left: MAX_RETRIES }),
    {
        PartitionCountState::start(topic)
    }
}

} // verus!
