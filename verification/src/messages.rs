//! Models of the two server responses the resolver reads.
//!
//! The wire encoding belongs to the protocol codec, an external
//! collaborator; the caller decodes a frame and hands the fields over as
//! the plain values below.

use vstd::prelude::*;

verus! {

/// What a topic lookup response says the client should do next.
#[derive(Clone, Copy, PartialEq, Eq, Structural, Debug)]
pub enum LookupType {
    Redirect,
    Connect,
    Failed,
}

/// Whether a partition-count response succeeded.
#[derive(Clone, Copy, PartialEq, Eq, Structural, Debug)]
pub enum PartitionedLookupType {
    Success,
    Failed,
}

/// A decoded server error code. The resolver only tells "service not
/// ready" apart from the rest; other codes travel through unchanged.
#[derive(Clone, Copy, PartialEq, Eq, Structural, Debug)]
pub enum ServerError {
    ServiceNotReady,
    Other(u32),
}

/// The fields of a topic lookup response that the resolver reads.
pub struct LookupTopicResponse {
    pub response: Option<LookupType>,
    pub broker_service_url: Option<String>,
    pub broker_service_url_tls: Option<String>,
    pub proxy_through_service_url: Option<bool>,
    pub authoritative: Option<bool>,
    pub error: Option<ServerError>,
    pub message: Option<String>,
}

/// The fields of a partition-count response that the resolver reads.
pub struct PartitionedTopicMetadataResponse {
    pub response: Option<PartitionedLookupType>,
    pub partitions: Option<u32>,
    pub error: Option<ServerError>,
    pub message: Option<String>,
}

/// The view of an optional owned string.
pub open spec fn opt_string_view(o: Option<String>) -> Option<Seq<char>> {
    match o {
        Some(s) => Some(s@),
        None => None,
    }
}

#[verifier::ext_equal]
pub struct LookupTopicResponseView {
    pub response: Option<LookupType>,
    pub broker_service_url: Option<Seq<char>>,
    pub broker_service_url_tls: Option<Seq<char>>,
    pub proxy_through_service_url: Option<bool>,
    pub authoritative: Option<bool>,
    pub error: Option<ServerError>,
    pub message: Option<Seq<char>>,
}

impl View for LookupTopicResponse {
    type V = LookupTopicResponseView;

    open spec fn view(&self) -> LookupTopicResponseView {
        LookupTopicResponseView {
            response: self.response,
            broker_service_url: opt_string_view(self.broker_service_url),
            broker_service_url_tls: opt_string_view(self.broker_service_url_tls),
            proxy_through_service_url: self.proxy_through_service_url,
            authoritative: self.authoritative,
            error: self.error,
            message: opt_string_view(self.message),
        }
    }
}

#[verifier::ext_equal]
pub struct PartitionedTopicMetadataResponseView {
    pub response: Option<PartitionedLookupType>,
    pub partitions: Option<u32>,
    pub error: Option<ServerError>,
    pub message: Option<Seq<char>>,
}

impl View for PartitionedTopicMetadataResponse {
    type V = PartitionedTopicMetadataResponseView;

    open spec fn view(&self) -> PartitionedTopicMetadataResponseView {
        PartitionedTopicMetadataResponseView {
            response: self.response,
            partitions: self.partitions,
            error: self.error,
            message: opt_string_view(self.message),
        }
    }
}

/// Clones an optional owned string, keeping its view.
pub fn clone_opt_string(o: &Option<String>) -> (r: Option<String>)
    ensures
        opt_string_view(r) == opt_string_view(*o),
{
    match o {
        Some(s) => Some(s.clone()),
        None => None,
    }
}

} // verus!
