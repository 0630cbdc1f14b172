//! The error types a resolution can end with.

use vstd::prelude::*;
use crate::messages::{opt_string_view, ServerError};

verus! {

/// A transport-level failure reported by the caller's connection layer.
/// The resolver only tells a closed connection apart from the rest; any
/// other failure travels through as its description.
#[derive(Debug)]
pub enum ConnectionError {
    Disconnected,
    Other(String),
}

#[verifier::ext_equal]
pub enum ConnectionErrorView {
    Disconnected,
    Other(Seq<char>),
}

impl View for ConnectionError {
    type V = ConnectionErrorView;

    open spec fn view(&self) -> ConnectionErrorView {
        match self {
            ConnectionError::Disconnected => ConnectionErrorView::Disconnected,
            ConnectionError::Other(s) => ConnectionErrorView::Other(s@),
        }
    }
}

/// Why a lookup failed.
///
/// `Connection` propagates a transport failure verbatim; `Query` carries
/// the server's error code and message once retries are exhausted or the
/// error is not retryable; `NotFound` means a response carried no usable
/// broker URL.
#[derive(Debug)]
pub enum ServiceDiscoveryError {
    Connection(ConnectionError),
    Query(Option<ServerError>, Option<String>),
    NotFound,
}

#[verifier::ext_equal]
pub enum ServiceDiscoveryErrorView {
    Connection(ConnectionErrorView),
    Query(Option<ServerError>, Option<Seq<char>>),
    NotFound,
}

impl View for ServiceDiscoveryError {
    type V = ServiceDiscoveryErrorView;

    open spec fn view(&self) -> ServiceDiscoveryErrorView {
        match self {
            ServiceDiscoveryError::Connection(e) => ServiceDiscoveryErrorView::Connection(e@),
            ServiceDiscoveryError::Query(code, msg) => ServiceDiscoveryErrorView::Query(
                *code,
                opt_string_view(*msg),
            ),
            ServiceDiscoveryError::NotFound => ServiceDiscoveryErrorView::NotFound,
        }
    }
}

impl Clone for ConnectionError {
    /// The copy describes the same failure.
    fn clone(&self) -> (r: Self)
        ensures
            r@ == self@,
    {
        match self {
            ConnectionError::Disconnected => ConnectionError::Disconnected,
            ConnectionError::Other(s) => ConnectionError::Other(s.clone()),
        }
    }
}

impl Clone for ServiceDiscoveryError {
    /// The copy describes the same failure.
    fn clone(&self) -> (r: Self)
        ensures
            r@ == self@,
    {
        match self {
            ServiceDiscoveryError::Connection(e) => ServiceDiscoveryError::Connection(e.clone()),
            ServiceDiscoveryError::Query(code, msg) => ServiceDiscoveryError::Query(
                *code,
                crate::messages::clone_opt_string(msg),
            ),
            ServiceDiscoveryError::NotFound => ServiceDiscoveryError::NotFound,
        }
    }
}

} // verus!
