//! Laws of whole lookup chains: what holds of a sequence of responses fed
//! one after another into the lookup state machine.

use vstd::prelude::*;
use crate::lookup::{spec_lookup_step, spec_initial_lookup_state, spec_service_not_ready,
    BrokerAddressView, LookupDirectiveView, LookupStateView, MAX_RETRIES};
use crate::errors::ServiceDiscoveryErrorView;
use crate::messages::{LookupTopicResponseView, ServerError};

verus! {

/// The state a lookup reaches after feeding the responses of `rs` in, in
/// order, starting from `s`.
pub open spec fn spec_run_chain(
    s: LookupStateView,
    rs: Seq<LookupTopicResponseView>,
) -> LookupStateView
    decreases rs.len(),
{
    if rs.len() == 0 {
        s
    } else {
        spec_run_chain(spec_lookup_step(s, rs[0]).0, rs.drop_first())
    }
}

/// The directive the chain issues on its `i`-th response.
pub open spec fn spec_chain_directive(
    s: LookupStateView,
    rs: Seq<LookupTopicResponseView>,
    i: int,
) -> LookupDirectiveView
    recommends
        0 <= i < rs.len(),
{
    spec_lookup_step(spec_run_chain(s, rs.take(i)), rs[i]).1
}

/// A lookup state is proxy-consistent when a sticky proxy flag comes with
/// a broker address that is marked proxied and connects by the base URL.
pub open spec fn spec_proxy_consistent(t: LookupStateView) -> bool {
    t.proxied_query ==> (t.broker_address.proxy && t.broker_address.url == t.base_url)
}

/// One transition keeps proxy consistency, keeps the base URL, and never
/// clears the sticky proxy flag.
pub proof fn lemma_step_keeps_proxy(s: LookupStateView, r: LookupTopicResponseView)
    requires
        spec_proxy_consistent(s),
    ensures
        spec_proxy_consistent(spec_lookup_step(s, r).0),
        spec_lookup_step(s, r).0.base_url == s.base_url,
        s.proxied_query ==> spec_lookup_step(s, r).0.proxied_query,
{
}

/// A fresh lookup is proxy-consistent: it starts unproxied.
pub proof fn lemma_initial_state_consistent(topic: Seq<char>, base: BrokerAddressView)
    ensures
        spec_proxy_consistent(spec_initial_lookup_state(topic, base)),
{
}

/// Proxy consistency holds of every state a chain reaches, and the base
/// URL never changes along the way.
pub proof fn lemma_chain_stays_consistent(s: LookupStateView, rs: Seq<LookupTopicResponseView>)
    requires
        spec_proxy_consistent(s),
    ensures
        spec_proxy_consistent(spec_run_chain(s, rs)),
        spec_run_chain(s, rs).base_url == s.base_url,
    decreases rs.len(),
{
    if rs.len() > 0 {
        lemma_step_keeps_proxy(s, rs[0]);
        lemma_chain_stays_consistent(spec_lookup_step(s, rs[0]).0, rs.drop_first());
    }
}

/// Once a lookup chain turns proxied, it stays proxied: after any number
/// of further responses the state is still proxied, and its broker address
/// is marked proxied and connects by the cluster's base URL.
pub proof fn lemma_proxy_is_sticky(s: LookupStateView, rs: Seq<LookupTopicResponseView>)
    requires
        spec_proxy_consistent(s),
        s.proxied_query,
    ensures
        spec_run_chain(s, rs).proxied_query,
        spec_run_chain(s, rs).broker_address.proxy,
        spec_run_chain(s, rs).broker_address.url == s.base_url,
        spec_run_chain(s, rs).base_url == s.base_url,
    decreases rs.len(),
{
    if rs.len() > 0 {
        lemma_step_keeps_proxy(s, rs[0]);
        lemma_proxy_is_sticky(spec_lookup_step(s, rs[0]).0, rs.drop_first());
    }
}

/// A run of "service not ready" answers within the retry budget: each one
/// draws a `Retry` directive (one fixed backoff each) and costs one unit
/// of budget, and nothing else of the state changes.
pub proof fn lemma_service_not_ready_drains_budget(
    s: LookupStateView,
    rs: Seq<LookupTopicResponseView>,
)
    requires
        forall|i: int| 0 <= i < rs.len() ==> spec_service_not_ready(#[trigger] rs[i]),
        rs.len() <= s.retries_left,
    ensures
        spec_run_chain(s, rs) == (LookupStateView {
            retries_left: (s.retries_left - rs.len()) as u8,
            ..s
        }),
        forall|i: int|
            0 <= i < rs.len() ==> #[trigger] spec_chain_directive(s, rs, i)
                == LookupDirectiveView::Retry,
    decreases rs.len(),
{
    if rs.len() == 0 {
        assert(spec_run_chain(s, rs) =~= (LookupStateView {
            retries_left: (s.retries_left - 0) as u8,
            ..s
        }));
    } else {
        let s1 = spec_lookup_step(s, rs[0]).0;
        let tail = rs.drop_first();
        lemma_service_not_ready_drains_budget(s1, tail);
        assert(spec_run_chain(s, rs) =~= (LookupStateView {
            retries_left: (s.retries_left - rs.len()) as u8,
            ..s
        }));
        assert forall|i: int| 0 <= i < rs.len() implies #[trigger] spec_chain_directive(s, rs, i)
            == LookupDirectiveView::Retry by {
            if i == 0 {
                assert(rs.take(0) =~= Seq::<LookupTopicResponseView>::empty());
            } else {
                assert(spec_chain_directive(s1, tail, i - 1) == LookupDirectiveView::Retry);
                assert(rs.take(i)[0] == rs[0]);
                assert(rs.take(i).drop_first() =~= tail.take(i - 1));
                assert(spec_run_chain(s, rs.take(i)) == spec_run_chain(s1, tail.take(i - 1)));
            }
        }
    }
}

/// Against a fresh lookup, twenty consecutive "service not ready" answers
/// each draw a `Retry` directive (a fixed backoff before resending) and
/// exhaust the budget; a twenty-first makes the lookup fail with a `Query`
/// error carrying that server error and the response's message.
pub proof fn lemma_service_not_ready_bounded_retry(
    topic: Seq<char>,
    base: BrokerAddressView,
    rs: Seq<LookupTopicResponseView>,
    last: LookupTopicResponseView,
)
    requires
        rs.len() == MAX_RETRIES,
        forall|i: int| 0 <= i < rs.len() ==> spec_service_not_ready(#[trigger] rs[i]),
        spec_service_not_ready(last),
    ensures
        forall|i: int|
            0 <= i < rs.len() ==> #[trigger] spec_chain_directive(
                spec_initial_lookup_state(topic, base),
                rs,
                i,
            ) == LookupDirectiveView::Retry,
        spec_run_chain(spec_initial_lookup_state(topic, base), rs).retries_left == 0,
        spec_lookup_step(spec_run_chain(spec_initial_lookup_state(topic, base), rs), last).1
            == LookupDirectiveView::Fail(
            ServiceDiscoveryErrorView::Query(Some(ServerError::ServiceNotReady), last.message),
        ),
{
    let init = spec_initial_lookup_state(topic, base);
    lemma_service_not_ready_drains_budget(init, rs);
}

} // verus!
