//! Fan-in of per-line outcomes: a step succeeds only if every line
//! succeeded, and otherwise fails with the failure of the earliest line in
//! input order, whatever order the calls completed in.

use vstd::prelude::*;

use std::collections::VecDeque;

verus! {

/// The failure of the earliest failed outcome, if any outcome failed.
pub open spec fn first_failure<T, E>(results: Seq<Result<T, E>>) -> Option<E>
    decreases results.len(),
{
    if results.len() == 0 {
        None
    } else {
        match first_failure(results.drop_last()) {
            Some(e) => Some(e),
            None => match results.last() {
                Ok(_) => None,
                Err(e) => Some(e),
            },
        }
    }
}

/// Every outcome succeeded.
pub open spec fn all_succeed<T, E>(results: Seq<Result<T, E>>) -> bool {
    forall|i: int| 0 <= i < results.len() ==> (#[trigger] results[i]) is Ok
}

/// Once a prefix has failed, the whole sequence fails the same way.
pub proof fn lemma_first_failure_prefix<T, E>(results: Seq<Result<T, E>>, n: int)
    requires
        0 <= n <= results.len(),
        first_failure(results.take(n)) is Some,
    ensures
        first_failure(results) == first_failure(results.take(n)),
    decreases results.len() - n,
{
    if n == results.len() {
        assert(results.take(n) =~= results);
    } else {
        assert(results.drop_last().take(n) =~= results.take(n));
        lemma_first_failure_prefix(results.drop_last(), n);
    }
}

/// A sequence fails if and only if one of its outcomes failed.
pub proof fn lemma_first_failure_none<T, E>(results: Seq<Result<T, E>>)
    ensures
        first_failure(results) is None <==> all_succeed(results),
    decreases results.len(),
{
    if results.len() > 0 {
        lemma_first_failure_none(results.drop_last());
        if all_succeed(results) {
            assert(all_succeed(results.drop_last()));
        }
        if first_failure(results) is None {
            assert forall|i: int| 0 <= i < results.len() implies (#[trigger] results[i]) is Ok by {
                if i < results.len() - 1 {
                    assert(results.drop_last()[i] == results[i]);
                }
            }
        }
    }
}

/// The earliest failed outcome decides, whatever follows it.
pub proof fn lemma_first_failure_at<T, E>(results: Seq<Result<T, E>>, k: int)
    requires
        0 <= k < results.len(),
        results[k] is Err,
        forall|j: int| 0 <= j < k ==> (#[trigger] results[j]) is Ok,
    ensures
        first_failure(results) == Some(results[k]->Err_0),
{
    let prefix = results.take(k);
    assert(all_succeed(prefix));
    lemma_first_failure_none(prefix);
    assert(results.take(k + 1).drop_last() =~= prefix);
    lemma_first_failure_prefix(results, k + 1);
}

/// The items of a vector, in order, as a queue to take them from the front.
pub fn queue_of<T>(items: Vec<T>) -> (r: VecDeque<T>)
    ensures
        r@ == items@,
{
    let mut queue: VecDeque<T> = VecDeque::new();
    for item in it: items.into_iter()
        invariant
            it.seq() == items@,
            queue@ == items@.take(it.index() as int),
    {
        queue.push_back(item);
        assert(queue@ =~= items@.take(it.index() as int + 1));
    }
    assert(items@.take(items@.len() as int) =~= items@);
    queue
}

} // verus!
