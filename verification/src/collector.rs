//! Circuit-breaker protection around a metric collector.
//!
//! The collection itself is asynchronous outside work; this module holds the decisions
//! taken before and after it: whether to call the inner collector at all, and what to
//! record and hand on once it has answered.
use crate::circuit_breaker::{spec_call_allowed, spec_record_failure, spec_record_success, CircuitBreaker};
use vstd::prelude::*;

verus! {

/// A wrapper that adds circuit breaker protection to a collector.
pub struct CircuitProtectedCollector<C> {
    inner: C,
    circuit_breaker: CircuitBreaker,
    name: String,
}

impl<C> CircuitProtectedCollector<C> {
    /// The protected collector.
    pub closed spec fn spec_inner(self) -> C {
        self.inner
    }

    /// The circuit breaker guarding the collector.
    pub closed spec fn spec_breaker(self) -> CircuitBreaker {
        self.circuit_breaker
    }

    /// The name used in log messages.
    pub closed spec fn spec_name(self) -> Seq<char> {
        self.name@
    }

    /// Creates a new circuit-protected collector.
    pub fn new(name: String, inner: C, circuit_breaker: CircuitBreaker) -> (r: Self)
        ensures
            r.spec_name() == name@,
            r.spec_inner() == inner,
            r.spec_breaker() == circuit_breaker,
    {
        CircuitProtectedCollector { inner, circuit_breaker, name }
    }

    /// The protected collector.
    pub fn inner(&self) -> (r: &C)
        ensures
            *r == self.spec_inner(),
    {
        &self.inner
    }

    /// The circuit breaker.
    pub fn circuit_breaker(&self) -> (r: &CircuitBreaker)
        ensures
            *r == self.spec_breaker(),
    {
        &self.circuit_breaker
    }

    /// The name.
    pub fn name(&self) -> (r: &String)
        ensures
            r@ == self.spec_name(),
    {
        &self.name
    }

    /// Decides, at clock reading `now`, whether the inner collector may be called.
    /// When this returns `false` the collection yields no data points and the inner
    /// collector is not called.
    pub fn begin_collect(&mut self, now: u64) -> (allowed: bool)
        ensures
            (final(self).spec_breaker().spec_state(), allowed) == spec_call_allowed(
                old(self).spec_breaker().spec_config(),
                old(self).spec_breaker().spec_state(),
                now,
            ),
            final(self).spec_breaker().spec_config() == old(self).spec_breaker().spec_config(),
            final(self).spec_inner() == old(self).spec_inner(),
            final(self).spec_name() == old(self).spec_name(),
    {
        self.circuit_breaker.call_allowed(now)
    }

    /// Records what the inner collector answered (observed at clock reading `now`) and returns
    /// the data points to hand on: the collected ones on success, none on failure. A failure is
    /// never passed on, so that one failing collector does not disturb the others.
    pub fn finish_collect<T, E>(&mut self, outcome: Result<Vec<T>, E>, now: u64) -> (points: Vec<T>)
        ensures
            match outcome {
                Ok(items) => {
                    &&& points@ == items@
                    &&& final(self).spec_breaker().spec_state() == spec_record_success(
                        old(self).spec_breaker().spec_config(),
                        old(self).spec_breaker().spec_state(),
                    )
                },
                Err(_) => {
                    &&& points@.len() == 0
                    &&& final(self).spec_breaker().spec_state() == spec_record_failure(
                        old(self).spec_breaker().spec_config(),
                        old(self).spec_breaker().spec_state(),
                        now,
                    )
                },
            },
            final(self).spec_breaker().spec_config() == old(self).spec_breaker().spec_config(),
            final(self).spec_inner() == old(self).spec_inner(),
            final(self).spec_name() == old(self).spec_name(),
    {
        match outcome {
            Ok(items) => {
                self.circuit_breaker.record_success();
                items
            },
            Err(_) => {
                self.circuit_breaker.record_failure(now);
                Vec::new()
            },
        }
    }
}

/// The items of the successful outcomes, in order; failed outcomes add nothing.
pub open spec fn gathered<T, E>(outcomes: Seq<Result<Vec<T>, E>>) -> Seq<T>
    decreases outcomes.len(),
{
    if outcomes.len() == 0 {
        Seq::empty()
    } else {
        gathered(outcomes.drop_last()) + match outcomes.last() {
            Ok(items) => items@,
            Err(_) => Seq::empty(),
        }
    }
}

/// The values of the successful outcomes, in order.
pub open spec fn successes<T, E>(outcomes: Seq<Result<T, E>>) -> Seq<T>
    decreases outcomes.len(),
{
    if outcomes.len() == 0 {
        Seq::empty()
    } else {
        successes(outcomes.drop_last()) + match outcomes.last() {
            Ok(v) => seq![v],
            Err(_) => Seq::empty(),
        }
    }
}

/// What a batch of collectors gave, put together: the items of every collector that succeeded,
/// collectors in order; the ones that failed are left out.
pub fn gather_collected<T, E>(outcomes: Vec<Result<Vec<T>, E>>) -> (items: Vec<T>)
    ensures
        items@ == gathered(outcomes@),
{
    let ghost all = outcomes@;
    let mut out: Vec<T> = Vec::new();
    for outcome in it: outcomes.into_iter()
        invariant
            it.seq() == all,
            out@ == gathered(all.take(it.index() as int)),
    {
        proof {
            assert(all.take(it.index() + 1).drop_last() =~= all.take(it.index() as int));
        }
        match outcome {
            Ok(mut v) => {
                out.append(&mut v);
            },
            Err(_) => {},
        }
    }
    proof {
        assert(all.take(all.len() as int) =~= all);
    }
    out
}

/// The values of the conversions that succeeded, in order; the failed ones are left out.
pub fn keep_successes<T, E>(outcomes: Vec<Result<T, E>>) -> (values: Vec<T>)
    ensures
        values@ == successes(outcomes@),
{
    let ghost all = outcomes@;
    let mut out: Vec<T> = Vec::new();
    for outcome in it: outcomes.into_iter()
        invariant
            it.seq() == all,
            out@ == successes(all.take(it.index() as int)),
    {
        proof {
            assert(all.take(it.index() + 1).drop_last() =~= all.take(it.index() as int));
        }
        match outcome {
            Ok(v) => {
                out.push(v);
            },
            Err(_) => {},
        }
    }
    proof {
        assert(all.take(all.len() as int) =~= all);
    }
    out
}

/// The days whose totals are collected at startup, as offsets in days before today: from `days`
/// days ago to yesterday, oldest first. Today is not among them.
pub fn backfill_day_offsets(days: u64) -> (r: Vec<u64>)
    ensures
        r@.len() == days,
        forall|k: int| 0 <= k < days ==> r@[k] == days - k,
{
    let mut r: Vec<u64> = Vec::new();
    let mut k: u64 = 0;
    while k < days
        invariant
            k <= days,
            r@.len() == k,
            forall|j: int| 0 <= j < k ==> r@[j] == days - j,
        decreases days - k,
    {
        r.push(days - k);
        k += 1;
    }
    r
}

} // verus!
