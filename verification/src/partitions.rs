//! The partitioned topic resolver: the retry state machine of the
//! partition-count query, the synthesis of partition topic names, and the
//! all-or-nothing aggregation of the per-partition lookups.

use vstd::prelude::*;
use vstd::string::StringExecFns;
use crate::errors::{ServiceDiscoveryError, ServiceDiscoveryErrorView};
use crate::lookup::{BrokerAddress, MAX_RETRIES};
use crate::messages::{PartitionedTopicMetadataResponse, PartitionedTopicMetadataResponseView,
    PartitionedLookupType, ServerError, clone_opt_string};
use crate::strutil::spec_decimal;

verus! {

/// The loop state of one partition-count query: only the remaining retry
/// budget; there is no redirect concept here.
pub struct PartitionCountState {
    pub topic: String,
    pub retries_left: u8,
}

#[verifier::ext_equal]
pub struct PartitionCountStateView {
    pub topic: Seq<char>,
    pub retries_left: u8,
}

impl View for PartitionCountState {
    type V = PartitionCountStateView;

    open spec fn view(&self) -> PartitionCountStateView {
        PartitionCountStateView { topic: self.topic@, retries_left: self.retries_left }
    }
}

/// What the caller must do after feeding a partition-count response in.
///
/// `Retry`: wait the fixed 500ms backoff, then resend the query.
/// `Complete`: the partition count is known. `Fail`: surface the error.
pub enum PartitionCountDirective {
    Retry,
    Complete(u32),
    Fail(ServiceDiscoveryError),
}

#[verifier::ext_equal]
pub enum PartitionCountDirectiveView {
    Retry,
    Complete(u32),
    Fail(ServiceDiscoveryErrorView),
}

impl View for PartitionCountDirective {
    type V = PartitionCountDirectiveView;

    open spec fn view(&self) -> PartitionCountDirectiveView {
        match self {
            PartitionCountDirective::Retry => PartitionCountDirectiveView::Retry,
            PartitionCountDirective::Complete(n) => PartitionCountDirectiveView::Complete(*n),
            PartitionCountDirective::Fail(e) => PartitionCountDirectiveView::Fail(e@),
        }
    }
}

/// Whether a partition-count response reports a failed lookup: no lookup
/// type at all, or an explicit `Failed` one.
pub open spec fn spec_metadata_failed(r: PartitionedTopicMetadataResponseView) -> bool {
    r.response is None || r.response == Some(PartitionedLookupType::Failed)
}

/// One transition of the partition-count state machine.
///
/// A failed response is retried while it says "service not ready" and
/// budget remains, else it fails with the server's error and message. A
/// successful response completes with its partition count; one that
/// carries none is a `Query` failure with whatever error and message
/// accompanied it.
pub open spec fn spec_partition_count_step(
    s: PartitionCountStateView,
    r: PartitionedTopicMetadataResponseView,
) -> (PartitionCountStateView, PartitionCountDirectiveView) {
    if spec_metadata_failed(r) {
        if r.error == Some(ServerError::ServiceNotReady) && s.retries_left > 0 {
            (
                PartitionCountStateView { retries_left: (s.retries_left - 1) as u8, ..s },
                PartitionCountDirectiveView::Retry,
            )
        } else {
            (
                s,
                PartitionCountDirectiveView::Fail(
                    ServiceDiscoveryErrorView::Query(r.error, r.message),
                ),
            )
        }
    } else {
        match r.partitions {
            Some(n) => (s, PartitionCountDirectiveView::Complete(n)),
            None => (
                s,
                PartitionCountDirectiveView::Fail(
                    ServiceDiscoveryErrorView::Query(r.error, r.message),
                ),
            ),
        }
    }
}

impl PartitionCountState {
    /// The state a partition-count query of `topic` starts in: the full
    /// retry budget.
    pub fn start(topic: String) -> (s: Self)
        ensures
            s@ == (PartitionCountStateView { topic: topic@, retries_left: MAX_RETRIES }),
    {
        PartitionCountState { topic, retries_left: MAX_RETRIES }
    }

    /// Feeds one partition-count response into the state machine and says
    /// what to do next; exactly the transition of
    /// [`spec_partition_count_step`].
    pub fn handle_response(&mut self, resp: &PartitionedTopicMetadataResponse) -> (d:
        PartitionCountDirective)
        ensures
            final(self)@ == spec_partition_count_step(old(self)@, resp@).0,
            d@ == spec_partition_count_step(old(self)@, resp@).1,
    {
        let failed = match resp.response {
            None => true,
            Some(PartitionedLookupType::Failed) => true,
            Some(_) => false,
        };
        if failed {
            if matches!(resp.error, Some(ServerError::ServiceNotReady)) && self.retries_left > 0 {
                self.retries_left = self.retries_left - 1;
                proof {
                    assert(self@ =~= spec_partition_count_step(old(self)@, resp@).0);
                }
                PartitionCountDirective::Retry
            } else {
                PartitionCountDirective::Fail(
                    ServiceDiscoveryError::Query(resp.error, clone_opt_string(&resp.message)),
                )
            }
        } else {
            match resp.partitions {
                Some(n) => PartitionCountDirective::Complete(n),
                None => PartitionCountDirective::Fail(
                    ServiceDiscoveryError::Query(resp.error, clone_opt_string(&resp.message)),
                ),
            }
        }
    }
}

/// The name of partition `i` of `topic`: `"{topic}-partition-{i}"`.
pub open spec fn spec_partition_name(topic: Seq<char>, i: nat) -> Seq<char> {
    topic + "-partition-"@ + spec_decimal(i)
}

/// Builds the name of partition `i` of `topic`.
pub fn partition_topic_name(topic: &str, i: u32) -> (r: String)
    ensures
        r@ == spec_partition_name(topic@, i as nat),
{
    let mut s = topic.to_owned();
    s.append("-partition-");
    crate::strutil::push_decimal(&mut s, i);
    proof {
        assert(s@ =~= spec_partition_name(topic@, i as nat));
    }
    s
}

/// Builds the names of all `n` partitions of `topic`, in ascending
/// partition order.
pub fn partition_topic_names(topic: &str, n: u32) -> (r: Vec<String>)
    ensures
        r@.len() == n,
        forall|i: int| 0 <= i < n ==> #[trigger] r@[i]@ == spec_partition_name(topic@, i as nat),
{
    let mut names: Vec<String> = Vec::new();
    let mut i: u32 = 0;
    while i < n
        invariant
            i <= n,
            names@.len() == i,
            forall|j: int|
                0 <= j < i ==> #[trigger] names@[j]@ == spec_partition_name(topic@, j as nat),
        decreases n - i,
    {
        names.push(partition_topic_name(topic, i));
        i = i + 1;
    }
    names
}

/// Joins the per-partition lookup results all-or-nothing: the full ordered
/// list of `(name, address)` pairs when every lookup succeeded, else the
/// first error in partition order and no partial list.
pub fn collect_partition_lookups(
    names: &Vec<String>,
    results: &Vec<Result<BrokerAddress, ServiceDiscoveryError>>,
) -> (r: Result<Vec<(String, BrokerAddress)>, ServiceDiscoveryError>)
    requires
        names@.len() == results@.len(),
    ensures
        r is Ok <==> (forall|i: int| 0 <= i < results@.len() ==> #[trigger] results@[i] is Ok),
        r matches Ok(pairs) ==> {
            &&& pairs@.len() == names@.len()
            &&& forall|i: int|
                0 <= i < pairs@.len() ==> (#[trigger] pairs@[i]).0@ == names@[i]@ && pairs@[i].1@
                    == results@[i]->Ok_0@
        },
        r matches Err(e) ==> exists|i: int|
            {
                &&& 0 <= i < results@.len()
                &&& #[trigger] results@[i] is Err
                &&& e@ == results@[i]->Err_0@
                &&& forall|j: int| 0 <= j < i ==> #[trigger] results@[j] is Ok
            },
{
    let n = results.len();
    let mut pairs: Vec<(String, BrokerAddress)> = Vec::new();
    let mut i: usize = 0;
    while i < n
        invariant
            i <= n,
            n == results@.len(),
            names@.len() == results@.len(),
            pairs@.len() == i,
            forall|j: int| 0 <= j < i ==> #[trigger] results@[j] is Ok,
            forall|j: int|
                0 <= j < i ==> (#[trigger] pairs@[j]).0@ == names@[j]@ && pairs@[j].1@
                    == results@[j]->Ok_0@,
        decreases n - i,
    {
        match &results[i] {
            Ok(addr) => {
                pairs.push((names[i].clone(), addr.clone()));
            },
            Err(e) => {
                return Err(e.clone());
            },
        }
        i = i + 1;
    }
    Ok(pairs)
}

} // verus!
