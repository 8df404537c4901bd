//! Sequential failover across an ordered list of cluster endpoints.
//!
//! An operation is attempted against each endpoint in turn. The first
//! successful attempt resolves the whole pass and no later endpoint is
//! contacted; if every endpoint fails, the pass resolves with one error per
//! endpoint, in attempt order.
//!
//! The pass is driven step by step through [`Failover`], so a host program
//! can perform each attempt asynchronously and feed the outcome back in.
//! [`first_ok`] drives a complete pass over a synchronous callback.

use vstd::prelude::*;

verus! {

/// The mathematical state of a failover pass: how many endpoints there are,
/// the errors collected so far (one per attempted endpoint, in attempt
/// order), and the successful result if one attempt has succeeded.
pub struct FailoverModel<V, E> {
    /// The number of endpoints the pass ranges over.
    pub endpoint_count: nat,
    /// The errors of the failed attempts, in attempt order.
    pub errors: Seq<E>,
    /// The result of the successful attempt, if any.
    pub success: Option<V>,
}

impl<V, E> FailoverModel<V, E> {
    /// Internal consistency: at most one attempt per endpoint, and a
    /// success leaves at least one endpoint unattempted afterwards.
    pub open spec fn wf(self) -> bool {
        &&& self.endpoint_count >= 1
        &&& self.errors.len() <= self.endpoint_count
        &&& (self.success is Some ==> self.errors.len() < self.endpoint_count)
    }

    /// The state of a pass over `endpoint_count` endpoints before any
    /// attempt has been made.
    pub open spec fn begin(endpoint_count: nat) -> Self {
        FailoverModel { endpoint_count, errors: Seq::empty(), success: None }
    }

    /// True once the pass has a definite outcome: some attempt succeeded,
    /// or every endpoint has failed.
    pub open spec fn is_resolved(self) -> bool {
        self.success is Some || self.errors.len() == self.endpoint_count
    }

    /// The endpoint the next attempt must target, or `None` when the pass
    /// is resolved and no endpoint may be contacted any more.
    pub open spec fn next_endpoint(self) -> Option<int> {
        if self.is_resolved() {
            None
        } else {
            Some(self.errors.len() as int)
        }
    }

    /// The state after one attempt against `next_endpoint()` comes back
    /// with `r`.
    pub open spec fn step(self, r: Result<V, E>) -> Self {
        match r {
            Ok(v) => FailoverModel { success: Some(v), ..self },
            Err(e) => FailoverModel { errors: self.errors.push(e), ..self },
        }
    }

    /// The outcome of a resolved pass: the successful value, or every
    /// attempt's error in attempt order.
    pub open spec fn outcome(self) -> Result<V, Seq<E>> {
        match self.success {
            Some(v) => Ok(v),
            None => Err(self.errors),
        }
    }
}

/// Drives one failover pass. Ask [`Failover::next_endpoint`] which endpoint
/// to try, perform the attempt outside, and report the result through
/// [`Failover::record_attempt`]; repeat until the pass is resolved.
pub struct Failover<V, E> {
    endpoint_count: usize,
    errors: Vec<E>,
    success: Option<V>,
}

impl<V, E> View for Failover<V, E> {
    type V = FailoverModel<V, E>;

    closed spec fn view(&self) -> FailoverModel<V, E> {
        FailoverModel {
            endpoint_count: self.endpoint_count as nat,
            errors: self.errors@,
            success: self.success,
        }
    }
}

impl<V, E> Failover<V, E> {
    /// Starts a pass over `endpoint_count` endpoints.
    pub fn begin(endpoint_count: usize) -> (r: Self)
        requires
            endpoint_count >= 1,
        ensures
            r@ == FailoverModel::<V, E>::begin(endpoint_count as nat),
    {
        Failover { endpoint_count, errors: Vec::new(), success: None }
    }

    /// The endpoint the next attempt must target, or `None` when the pass
    /// is resolved.
    pub fn next_endpoint(&self) -> (r: Option<usize>)
        ensures
            match r {
                Some(i) => self@.next_endpoint() == Some(i as int),
                None => self@.next_endpoint() is None,
            },
    {
        if self.success.is_some() || self.errors.len() == self.endpoint_count {
            None
        } else {
            Some(self.errors.len())
        }
    }

    /// True once the pass has a definite outcome.
    pub fn is_resolved(&self) -> (r: bool)
        ensures
            r == self@.is_resolved(),
    {
        self.success.is_some() || self.errors.len() == self.endpoint_count
    }

    /// Records the result of the attempt against `next_endpoint()`. On
    /// success the pass resolves immediately and `next_endpoint()` names no
    /// further endpoint; on failure the error is appended, keeping one
    /// error per attempted endpoint in attempt order.
    pub fn record_attempt(&mut self, r: Result<V, E>)
        requires
            old(self)@.wf(),
            !old(self)@.is_resolved(),
        ensures
            final(self)@ == old(self)@.step(r),
            final(self)@.wf(),
    {
        match r {
            Ok(v) => {
                self.success = Some(v);
            }
            Err(e) => {
                self.errors.push(e);
            }
        }
    }

    /// The outcome of a resolved pass.
    pub fn into_outcome(self) -> (r: Result<V, Vec<E>>)
        requires
            self@.is_resolved(),
        ensures
            match r {
                Ok(v) => self@.outcome() == Ok::<V, Seq<E>>(v),
                Err(es) => self@.outcome() matches Err(m) && es@ == m,
            },
    {
        match self.success {
            Some(v) => Ok(v),
            None => Err(self.errors),
        }
    }
}

/// Runs a complete failover pass over a synchronous callback: calls
/// `callback` with each endpoint index in order, short-circuiting on the
/// first success. If every endpoint is exhausted without success, returns
/// every attempt's error, one per endpoint, in attempt order.
pub fn first_ok<V, E, F: Fn(usize) -> Result<V, E>>(endpoint_count: usize, callback: F) -> (r:
    Result<V, Vec<E>>)
    requires
        endpoint_count >= 1,
        forall|i: usize| i < endpoint_count ==> #[trigger] call_requires(callback, (i,)),
    ensures
        match r {
            Ok(v) => exists|i: usize|
                i < endpoint_count && #[trigger] call_ensures(callback, (i,), Ok(v)),
            Err(es) => es@.len() == endpoint_count && forall|i: int|
                0 <= i < endpoint_count ==> #[trigger] call_ensures(
                    callback,
                    (i as usize,),
                    Err(es@[i]),
                ),
        },
{
    let mut pass = Failover::<V, E>::begin(endpoint_count);
    let ghost mut success_attempt: usize = 0;
    while !pass.is_resolved()
        invariant
            pass@.wf(),
            pass@.endpoint_count == endpoint_count as nat,
            forall|i: usize| i < endpoint_count ==> #[trigger] call_requires(callback, (i,)),
            pass@.success is Some ==> success_attempt < endpoint_count && call_ensures(
                callback,
                (success_attempt,),
                Ok(pass@.success.unwrap()),
            ),
            forall|i: int|
                0 <= i < pass@.errors.len() ==> #[trigger] call_ensures(
                    callback,
                    (i as usize,),
                    Err(pass@.errors[i]),
                ),
        decreases
                endpoint_count - pass@.errors.len() + (if pass@.success is Some {
                    0int
                } else {
                    1int
                }),
    {
        let attempt = match pass.next_endpoint() {
            Some(i) => i,
            None => {
                proof {
                    assert(false);
                }
                0
            }
        };
        let outcome = callback(attempt);
        let ghost recorded = outcome;
        pass.record_attempt(outcome);
        proof {
            if recorded is Ok {
                success_attempt = attempt;
            }
        }
    }
    let outcome = pass.into_outcome();
    let ghost resolved = outcome;
    proof {
        match resolved {
            Ok(v) => {
                assert(success_attempt < endpoint_count && call_ensures(
                    callback,
                    (success_attempt,),
                    Ok(v),
                ));
            }
            Err(_) => {}
        }
    }
    outcome
}

/// Law: failover short-circuits on the first success. From any unresolved
/// state, a successful attempt resolves the pass with that value and no
/// further endpoint is named for contact.
pub proof fn lemma_failover_short_circuit<V, E>(m: FailoverModel<V, E>, v: V)
    requires
        m.wf(),
        !m.is_resolved(),
    ensures
        m.step(Ok(v)).is_resolved(),
        m.step(Ok(v)).next_endpoint() is None,
        m.step(Ok(v)).outcome() == Ok::<V, Seq<E>>(v),
{
}

/// The state a pass reaches after the results in `results` come back, one
/// per attempt, in order.
pub open spec fn drive<V, E>(m: FailoverModel<V, E>, results: Seq<Result<V, E>>) -> FailoverModel<
    V,
    E,
>
    decreases results.len(),
{
    if results.len() == 0 {
        m
    } else {
        drive(m.step(results[0]), results.drop_first())
    }
}

proof fn lemma_drive_all_failing<V, E>(m: FailoverModel<V, E>, es: Seq<E>)
    requires
        m.success is None,
    ensures
        drive(m, es.map_values(|e: E| Err::<V, E>(e))).errors == m.errors + es,
        drive(m, es.map_values(|e: E| Err::<V, E>(e))).success is None,
        drive(m, es.map_values(|e: E| Err::<V, E>(e))).endpoint_count == m.endpoint_count,
    decreases es.len(),
{
    let steps = es.map_values(|e: E| Err::<V, E>(e));
    if es.len() == 0 {
        assert(m.errors + es =~= m.errors);
    } else {
        let m1 = m.step(Err(es[0]));
        assert(steps.drop_first() =~= es.drop_first().map_values(|e: E| Err::<V, E>(e)));
        lemma_drive_all_failing(m1, es.drop_first());
        assert(m1.errors + es.drop_first() =~= m.errors + es);
    }
}

/// Law: failover exhausts the endpoint list and aggregates on total
/// failure. If every one of the `es.len()` endpoints fails, the attempts
/// in order yielding the errors `es`, the pass resolves with exactly those
/// errors in the same order.
pub proof fn lemma_failover_aggregates<V, E>(es: Seq<E>)
    requires
        es.len() >= 1,
    ensures
        drive(
            FailoverModel::<V, E>::begin(es.len() as nat),
            es.map_values(|e: E| Err::<V, E>(e)),
        ).is_resolved(),
        drive(
            FailoverModel::<V, E>::begin(es.len() as nat),
            es.map_values(|e: E| Err::<V, E>(e)),
        ).outcome() == Err::<V, Seq<E>>(es),
{
    let m0 = FailoverModel::<V, E>::begin(es.len() as nat);
    lemma_drive_all_failing(m0, es);
    assert(m0.errors + es =~= es);
}

} // verus!
