//! Concurrent fan-out of one read-only query to every cluster endpoint.
//!
//! Unlike failover, a fan-out query contacts every endpoint exactly once
//! and yields one result per endpoint. Results arrive in completion order,
//! not endpoint order, so each recorded result carries the index of the
//! endpoint it came from.
//!
//! The pass is driven step by step through [`FanOut`]: a host program
//! dispatches the query to all endpoints at once and records each result
//! as it completes. [`run_fanout`] drives a complete pass over a
//! synchronous callback.

use vstd::prelude::*;
use vstd::seq_lib::*;
use vstd::set_lib::*;

verus! {

/// The mathematical state of a fan-out pass: which endpoints still owe a
/// result, and the results recorded so far in completion order, each
/// attributed to its endpoint.
pub struct FanOutModel<R> {
    /// One flag per endpoint; true while that endpoint's result is still
    /// outstanding.
    pub pending: Seq<bool>,
    /// The recorded results in completion order, each with the index of
    /// the endpoint that produced it.
    pub results: Seq<(int, R)>,
}

impl<R> FanOutModel<R> {
    /// The number of endpoints the pass ranges over.
    pub open spec fn endpoint_count(self) -> int {
        self.pending.len() as int
    }

    /// The endpoint indices of the recorded results, in completion order.
    pub open spec fn recorded_indices(self) -> Seq<int> {
        self.results.map_values(|p: (int, R)| p.0)
    }

    /// Internal consistency: every recorded result is attributed to a real
    /// endpoint, no endpoint is recorded twice, and an endpoint is pending
    /// exactly while no result of its is recorded.
    pub open spec fn wf(self) -> bool {
        &&& self.pending.len() >= 1
        &&& (forall|k: int|
            0 <= k < self.results.len() ==> 0 <= #[trigger] self.results[k].0
                < self.endpoint_count())
        &&& self.recorded_indices().no_duplicates()
        &&& (forall|j: int|
            0 <= j < self.endpoint_count() ==> (#[trigger] self.pending[j]
                <==> !self.recorded_indices().contains(j)))
    }

    /// The state of a pass over `endpoint_count` endpoints before any
    /// result has come back.
    pub open spec fn begin(endpoint_count: int) -> Self {
        FanOutModel { pending: Seq::new(endpoint_count as nat, |j: int| true), results: Seq::empty() }
    }

    /// The state after endpoint `endpoint` delivers the result `outcome`.
    pub open spec fn record(self, endpoint: int, outcome: R) -> Self {
        FanOutModel {
            pending: self.pending.update(endpoint, false),
            results: self.results.push((endpoint, outcome)),
        }
    }

    /// True once every endpoint has delivered its result.
    pub open spec fn is_done(self) -> bool {
        forall|j: int| 0 <= j < self.endpoint_count() ==> !(#[trigger] self.pending[j])
    }
}

/// Law: a completed fan-out reaches every endpooint exactly once. Once every
/// endpoint has delivered, there is exactly one result per endpoint: the
/// pass yields `endpoint_count` results, every endpoint index appears among
/// them, and no index appears twice.
pub proof fn lemma_fanout_one_result_per_endpoint<R>(m: FanOutModel<R>)
    requires
        m.wf(),
        m.is_done(),
    ensures
        m.results.len() == m.endpoint_count(),
        forall|j: int|
            0 <= j < m.endpoint_count() ==> #[trigger] m.recorded_indices().contains(j),
        forall|k1: int, k2: int|
            0 <= k1 < m.results.len() && 0 <= k2 < m.results.len() && #[trigger] m.results[k1].0
                == #[trigger] m.results[k2].0 ==> k1 == k2,
{
    let n = m.endpoint_count();
    let ids = m.recorded_indices();
    assert forall|j: int| 0 <= j < n implies #[trigger] ids.contains(j) by {
        assert(!m.pending[j]);
    }
    ids.unique_seq_to_set();
    assert(ids.to_set().subset_of(set_int_range(0, n))) by {
        assert forall|j: int| ids.to_set().contains(j) implies set_int_range(0, n).contains(j) by {
            let k = choose|k: int| 0 <= k < ids.len() && ids[k] == j;
            assert(0 <= m.results[k].0 < n);
        }
    }
    assert(set_int_range(0, n).subset_of(ids.to_set())) by {
        assert forall|j: int| set_int_range(0, n).contains(j) implies ids.to_set().contains(j) by {
            assert(ids.contains(j));
        }
    }
    assert(ids.to_set() =~= set_int_range(0, n));
    lemma_int_range(0, n);
    assert(ids.len() == n);
    assert forall|k1: int, k2: int|
        0 <= k1 < m.results.len() && 0 <= k2 < m.results.len() && #[trigger] m.results[k1].0
            == #[trigger] m.results[k2].0 implies k1 == k2 by {
        assert(ids[k1] == ids[k2]);
    }
}

/// Drives one fan-out pass. The host dispatches the query to every
/// endpoint, then records each endpoint's result as it completes, in any
/// order; the pass is done when every endpoint has delivered.
pub struct FanOut<R> {
    pending: Vec<bool>,
    results: Vec<(usize, R)>,
}

impl<R> View for FanOut<R> {
    type V = FanOutModel<R>;

    closed spec fn view(&self) -> FanOutModel<R> {
        FanOutModel {
            pending: self.pending@,
            results: self.results@.map_values(|p: (usize, R)| (p.0 as int, p.1)),
        }
    }
}

impl<R> FanOut<R> {
    /// Starts a pass over `endpoint_count` endpoints, all initially
    /// pending.
    pub fn begin(endpoint_count: usize) -> (r: Self)
        requires
            endpoint_count >= 1,
        ensures
            r@ == FanOutModel::<R>::begin(endpoint_count as int),
            r@.wf(),
    {
        let mut pending: Vec<bool> = Vec::new();
        let mut j: usize = 0;
        while j < endpoint_count
            invariant
                j <= endpoint_count,
                pending@.len() == j as nat,
                forall|k: int| 0 <= k < j ==> #[trigger] pending@[k] == true,
            decreases endpoint_count - j,
        {
            pending.push(true);
            j = j + 1;
        }
        let r = FanOut { pending, results: Vec::new() };
        proof {
            assert(r@.pending =~= FanOutModel::<R>::begin(endpoint_count as int).pending);
            assert(r@.results =~= FanOutModel::<R>::begin(endpoint_count as int).results);
        }
        r
    }

    /// True while endpoint `endpoint` still owes its result.
    pub fn is_pending(&self, endpoint: usize) -> (r: bool)
        requires
            endpoint < self@.endpoint_count(),
        ensures
            r == self@.pending[endpoint as int],
    {
        self.pending[endpoint]
    }

    /// Records the result delivered by endpoint `endpoint`. Each endpoint
    /// delivers exactly once; results are kept in completion order.
    pub fn record(&mut self, endpoint: usize, outcome: R)
        requires
            old(self)@.wf(),
            endpoint < old(self)@.endpoint_count(),
            old(self)@.pending[endpoint as int],
        ensures
            final(self)@ == old(self)@.record(endpoint as int, outcome),
            final(self)@.wf(),
    {
        let ghost prior = self@;
        self.pending.set(endpoint, false);
        self.results.push((endpoint, outcome));
        proof {
            let stepped = prior.record(endpoint as int, outcome);
            assert(self@.results =~= stepped.results);
            assert(self@.pending =~= stepped.pending);
            let ids = stepped.recorded_indices();
            assert(ids =~= prior.recorded_indices().push(endpoint as int));
            assert(!prior.recorded_indices().contains(endpoint as int));
            assert(ids.no_duplicates()) by {
                let old_ids = prior.recorded_indices();
                assert forall|k1: int, k2: int|
                    0 <= k1 < ids.len() && 0 <= k2 < ids.len() && k1 != k2 implies ids[k1]
                    != ids[k2] by {
                    if k1 < old_ids.len() && k2 < old_ids.len() {
                        assert(old_ids[k1] == ids[k1] && old_ids[k2] == ids[k2]);
                    } else if k1 < old_ids.len() {
                        assert(old_ids.contains(old_ids[k1]));
                    } else if k2 < old_ids.len() {
                        assert(old_ids.contains(old_ids[k2]));
                    }
                }
            }
            assert forall|j: int|
                0 <= j < stepped.endpoint_count() implies (#[trigger] stepped.pending[j]
                <==> !ids.contains(j)) by {
                if j == endpoint as int {
                    assert(ids[ids.len() - 1] == j);
                    assert(ids.contains(j));
                } else {
                    assert(prior.pending[j] <==> !prior.recorded_indices().contains(j));
                    assert forall|k: int| 0 <= k < ids.len() && ids[k] == j implies
                        prior.recorded_indices().contains(j) by {
                        assert(prior.recorded_indices()[k] == j);
                    }
                    if prior.recorded_indices().contains(j) {
                        let k = choose|k: int|
                            0 <= k < prior.recorded_indices().len() && prior.recorded_indices()[k]
                                == j;
                        assert(ids[k] == j);
                    }
                }
            }
        }
    }

    /// True once every endpoint has delivered its result.
    pub fn is_done(&self) -> (r: bool)
        ensures
            r == self@.is_done(),
    {
        let mut j: usize = 0;
        while j < self.pending.len()
            invariant
                j <= self.pending.len(),
                self@.pending.len() == self.pending.len() as nat,
                forall|k: int| 0 <= k < j ==> !(#[trigger] self@.pending[k]),
            decreases self.pending.len() - j,
        {
            if self.pending[j] {
                return false;
            }
            j = j + 1;
        }
        true
    }

    /// The recorded results of a completed pass, in completion order, each
    /// with the index of the endpoint that produced it.
    pub fn into_results(self) -> (r: Vec<(usize, R)>)
        ensures
            r@.map_values(|p: (usize, R)| (p.0 as int, p.1)) == self@.results,
            r@.len() == self@.results.len(),
    {
        self.results
    }
}

/// Runs a complete fan-out pass over a synchronous callback: calls
/// `callback` once with each endpoint index and returns one result per
/// endpoint. With a synchronous callback the completion order is simply
/// the endpoint order.
pub fn run_fanout<R, F: Fn(usize) -> R>(endpoint_count: usize, callback: F) -> (r: Vec<(usize, R)>)
    requires
        endpoint_count >= 1,
        forall|i: usize| i < endpoint_count ==> #[trigger] call_requires(callback, (i,)),
    ensures
        r@.len() == endpoint_count,
        forall|k: int|
            0 <= k < endpoint_count ==> #[trigger] r@[k].0 == k && call_ensures(
                callback,
                (k as usize,),
                r@[k].1,
            ),
{
    let mut pass = FanOut::<R>::begin(endpoint_count);
    let mut i: usize = 0;
    while i < endpoint_count
        invariant
            pass@.wf(),
            i <= endpoint_count,
            forall|j: usize| j < endpoint_count ==> #[trigger] call_requires(callback, (j,)),
            pass@.endpoint_count() == endpoint_count as int,
            pass@.results.len() == i as nat,
            forall|j: int| 0 <= j < endpoint_count ==> (#[trigger] pass@.pending[j] <==> j >= i),
            forall|k: int|
                0 <= k < i ==> #[trigger] pass@.results[k].0 == k && call_ensures(
                    callback,
                    (k as usize,),
                    pass@.results[k].1,
                ),
        decreases endpoint_count - i,
    {
        let outcome = callback(i);
        pass.record(i, outcome);
        i = i + 1;
    }
    let results = pass.into_results();
    proof {
        assert forall|k: int|
            0 <= k < endpoint_count implies #[trigger] results@[k].0 == k && call_ensures(
            callback,
            (k as usize,),
            results@[k].1,
        ) by {
            assert(pass@.results[k] == (results@[k].0 as int, results@[k].1));
        }
    }
    results
}

} // verus!
