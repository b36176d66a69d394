//! Result reconciliation and error accounting for multi-provider JSON-RPC
//! reads: per-provider outcomes, the aggregate result over all providers for
//! one logical call, and the cycles-shortfall resolver that computes the
//! budget a retry would need.

use vstd::prelude::*;

pub mod errors;
pub mod multi;
pub mod payloads;
pub mod providers;

use crate::errors::{ProviderError, RpcError};
use crate::multi::{MultiRpcResult, RpcResult};

verus! {

/// The resource-shortfall signal of one outcome: the `expected` field when
/// the outcome is a `TooFewCycles` provider error, and nothing otherwise.
/// Only the requested floor matters for a retry budget, so `received` is
/// ignored.
pub open spec fn shortfall_expected<T>(outcome: RpcResult<T>) -> Option<u128> {
    match outcome {
        Err(RpcError::ProviderError(ProviderError::TooFewCycles { expected, received })) => Some(
            expected,
        ),
        _ => None,
    }
}

/// Folds one outcome's shortfall signal into the running maximum: no signal
/// leaves the accumulator alone, a signal joins it by numeric maximum.
pub open spec fn join_shortfall(acc: Option<u128>, signal: Option<u128>) -> Option<u128> {
    match signal {
        None => acc,
        Some(expected) => match acc {
            None => Some(expected),
            Some(current) => Some(if expected >= current { expected } else { current }),
        },
    }
}

/// The largest `expected` value among the shortfall signals of a sequence of
/// outcomes, and nothing when no outcome signals a shortfall.
pub open spec fn max_shortfall<T>(outcomes: Seq<RpcResult<T>>) -> Option<u128>
    decreases outcomes.len(),
{
    if outcomes.len() == 0 {
        None
    } else {
        join_shortfall(max_shortfall(outcomes.drop_last()), shortfall_expected(outcomes.last()))
    }
}

/// The corrected retry budget implied by a multi-provider result: the largest
/// cycles amount some provider demanded and did not get, or `None` when no
/// provider reported a cycles shortfall. Each provider's `expected` is its
/// total requirement for the call, so the strictest provider's figure
/// satisfies all of them.
pub fn max_expected_too_few_cycles_error<T>(result: &MultiRpcResult<T>) -> (max_expected: Option<
    u128,
>)
    ensures
        max_expected == max_shortfall(result.outcomes()),
{
    let outcomes = result.iter();
    let ghost all = result.outcomes();
    let mut acc: Option<u128> = None;
    let mut i: usize = 0;
    while i < outcomes.len()
        invariant
            i <= outcomes@.len(),
            outcomes@.len() == all.len(),
            forall|j: int| 0 <= j < outcomes@.len() ==> *outcomes@[j] == all[j],
            acc == max_shortfall(all.take(i as int)),
        decreases outcomes@.len() - i,
    {
        let outcome: &RpcResult<T> = outcomes[i];
        let signal: Option<u128> = match outcome {
            Err(RpcError::ProviderError(ProviderError::TooFewCycles { expected, received: _ })) => {
                Some(*expected)
            }
            _ => None,
        };
        assert(signal == shortfall_expected(all[i as int]));
        acc = match (acc, signal) {
            (_, None) => acc,
            (None, Some(expected)) => Some(expected),
            (Some(current), Some(expected)) => {
                if expected >= current {
                    Some(expected)
                } else {
                    Some(current)
                }
            }
        };
        proof {
            assert(all.take(i + 1).drop_last() =~= all.take(i as int));
            assert(all.take(i + 1).last() == all[i as int]);
        }
        i = i + 1;
    }
    proof {
        assert(all.take(outcomes@.len() as int) =~= all);
    }
    acc
}

/// The resolver finds no budget exactly when no outcome signals a shortfall:
/// over any sequence of outcomes, `max_shortfall` is `None` if and only if
/// every element's shortfall signal is absent.
pub proof fn lemma_max_shortfall_none<T>(outcomes: Seq<RpcResult<T>>)
    ensures
        max_shortfall(outcomes) is None <==> (forall|i: int|
            0 <= i < outcomes.len() ==> shortfall_expected(outcomes[i]) is None),
    decreases outcomes.len(),
{
    if outcomes.len() > 0 {
        let prefix = outcomes.drop_last();
        lemma_max_shortfall_none(prefix);
        assert(forall|i: int| 0 <= i < prefix.len() ==> prefix[i] == outcomes[i]);
        assert(outcomes.last() == outcomes[outcomes.len() - 1]);
    }
}

/// The resolver's budget is exactly the largest shortfall signal: over any
/// sequence of outcomes, `max_shortfall` equals `Some(v)` if and only if some
/// element signals a shortfall of exactly `v` and no element signals a larger
/// one. Elements without a shortfall signal play no part.
pub proof fn lemma_max_shortfall_some<T>(outcomes: Seq<RpcResult<T>>, v: u128)
    ensures
        max_shortfall(outcomes) == Some(v) <==> ((exists|i: int|
            0 <= i < outcomes.len() && shortfall_expected(outcomes[i]) == Some(v)) && (forall|
            i: int,
        |
            0 <= i < outcomes.len() ==> (#[trigger] shortfall_expected(outcomes[i]) matches Some(e)
                ==> e <= v))),
    decreases outcomes.len(),
{
    if outcomes.len() > 0 {
        let prefix = outcomes.drop_last();
        assert(forall|i: int| 0 <= i < prefix.len() ==> prefix[i] == outcomes[i]);
        assert(outcomes.last() == outcomes[outcomes.len() - 1]);
        lemma_max_shortfall_some(prefix, v);
        match max_shortfall(prefix) {
            Some(w) => lemma_max_shortfall_some(prefix, w),
            None => lemma_max_shortfall_none(prefix),
        }
    }
}

/// A `Consistent` result whose collapsed outcome carries no shortfall signal
/// — a success, or an error of any other kind — resolves to no retry budget.
pub proof fn lemma_consistent_resolves_none<T>(outcome: RpcResult<T>)
    requires
        shortfall_expected(outcome) is None,
    ensures
        max_shortfall(MultiRpcResult::Consistent(outcome).outcomes()) is None,
{
    let s = MultiRpcResult::Consistent(outcome).outcomes();
    reveal_with_fuel(max_shortfall, 2);
    assert(s.drop_last() =~= Seq::<RpcResult<T>>::empty());
    assert(s.last() == outcome);
}

/// An `Inconsistent` result none of whose entries signals a shortfall — only
/// successes or non-shortfall errors — resolves to no retry budget.
pub proof fn lemma_inconsistent_without_shortfall_resolves_none<T>(result: MultiRpcResult<T>)
    requires
        result is Inconsistent,
        forall|i: int|
            0 <= i < result->Inconsistent_0@.len() ==> shortfall_expected(
                #[trigger] result->Inconsistent_0@[i].1,
            ) is None,
    ensures
        max_shortfall(result.outcomes()) is None,
{
    lemma_max_shortfall_none(result.outcomes());
    assert(forall|i: int|
        0 <= i < result.outcomes().len() ==> #[trigger] result.outcomes()[i]
            == result->Inconsistent_0@[i].1);
}

/// An `Inconsistent` result with at least one shortfall entry resolves to
/// `Some(v)` where `v` is the largest `expected` among exactly the shortfall
/// entries: `v` is one of the reported floors, no entry reports a larger one,
/// and non-shortfall entries (and every `received` field) play no part.
pub proof fn lemma_inconsistent_with_shortfall_resolves_max<T>(result: MultiRpcResult<T>, v: u128)
    requires
        result is Inconsistent,
        exists|i: int|
            0 <= i < result->Inconsistent_0@.len() && shortfall_expected(
                #[trigger] result->Inconsistent_0@[i].1,
            ) == Some(v),
        forall|i: int|
            0 <= i < result->Inconsistent_0@.len() ==> (shortfall_expected(
                #[trigger] result->Inconsistent_0@[i].1,
            ) matches Some(e) ==> e <= v),
    ensures
        max_shortfall(result.outcomes()) == Some(v),
{
    lemma_max_shortfall_some(result.outcomes(), v);
    assert(forall|i: int|
        0 <= i < result.outcomes().len() ==> #[trigger] result.outcomes()[i]
            == result->Inconsistent_0@[i].1);
    let witness = choose|i: int|
        0 <= i < result->Inconsistent_0@.len() && shortfall_expected(
            #[trigger] result->Inconsistent_0@[i].1,
        ) == Some(v);
    assert(shortfall_expected(result.outcomes()[witness]) == Some(v));
}

/// The resolver is order-independent: two `Inconsistent` results whose
/// (identity, outcome) entries are permutations of each other — equal as
/// multisets — resolve to the same retry budget.
pub proof fn lemma_resolver_order_independent<T>(a: MultiRpcResult<T>, b: MultiRpcResult<T>)
    requires
        a is Inconsistent,
        b is Inconsistent,
        a->Inconsistent_0@.to_multiset() == b->Inconsistent_0@.to_multiset(),
    ensures
        max_shortfall(a.outcomes()) == max_shortfall(b.outcomes()),
{
    broadcast use vstd::seq_lib::group_to_multiset_ensures;

    let ea = a->Inconsistent_0@;
    let eb = b->Inconsistent_0@;
    let s = a.outcomes();
    let t = b.outcomes();
    assert(ea.len() == eb.len()) by {
        assert(ea.to_multiset().len() == ea.len());
        assert(eb.to_multiset().len() == eb.len());
    }
    assert(forall|i: int| 0 <= i < s.len() ==> #[trigger] s[i] == ea[i].1);
    assert(forall|i: int| 0 <= i < t.len() ==> #[trigger] t[i] == eb[i].1);
    match max_shortfall(s) {
        None => {
            lemma_max_shortfall_none(s);
            lemma_max_shortfall_none(t);
            assert forall|k: int| 0 <= k < t.len() implies shortfall_expected(
                t[k],
            ) is None by {
                assert(eb.contains(eb[k]));
                assert(eb.to_multiset().count(eb[k]) > 0);
                assert(ea.to_multiset().count(eb[k]) > 0);
                assert(ea.contains(eb[k]));
                let m = choose|m: int| 0 <= m < ea.len() && ea[m] == eb[k];
                assert(shortfall_expected(s[m]) is None);
            }
        }
        Some(v) => {
            lemma_max_shortfall_some(s, v);
            lemma_max_shortfall_some(t, v);
            let i = choose|i: int| 0 <= i < s.len() && shortfall_expected(#[trigger] s[i]) == Some(
                v,
            );
            assert(ea.contains(ea[i]));
            assert(ea.to_multiset().count(ea[i]) > 0);
            assert(eb.to_multiset().count(ea[i]) > 0);
            assert(eb.contains(ea[i]));
            let j = choose|j: int| 0 <= j < eb.len() && eb[j] == ea[i];
            assert(shortfall_expected(t[j]) == Some(v));
            assert forall|k: int|
                0 <= k < t.len() implies (#[trigger] shortfall_expected(t[k]) matches Some(e)
                ==> e <= v) by {
                assert(eb.contains(eb[k]));
                assert(eb.to_multiset().count(eb[k]) > 0);
                assert(ea.to_multiset().count(eb[k]) > 0);
                assert(ea.contains(eb[k]));
                let m = choose|m: int| 0 <= m < ea.len() && ea[m] == eb[k];
                assert(shortfall_expected(s[m]) == shortfall_expected(t[k]));
            }
        }
    }
}

} // verus!
