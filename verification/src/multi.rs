//! The aggregate result of querying one logical call against several
//! providers, and the uniform traversal over its outcomes.

use vstd::prelude::*;

use crate::errors::RpcError;
use crate::providers::RpcService;

verus! {

/// The outcome of one provider's attempt at one logical call.
pub type RpcResult<T> = Result<T, RpcError>;

/// Relies on the standard library's derived `Clone` for `Result`, which
/// clones whichever side is present; nothing is claimed of the clones of the
/// generic contents.
pub assume_specification<T: Clone, E: Clone>[ <Result<T, E> as Clone>::clone ](
    res: &Result<T, E>,
) -> (cloned: Result<T, E>)
    ensures
        cloned is Ok <==> *res is Ok,
;

/// All providers' outcomes for one logical call. `Consistent` means every
/// queried provider agreed and the outcomes were collapsed to one;
/// `Inconsistent` keeps the raw per-provider outcomes verbatim, in query
/// order, duplicates included. The dispatch layer that constructs these is
/// responsible for only building `Inconsistent` from two or more entries; the
/// type itself does not enforce a minimum length.
#[derive(Clone, Debug, PartialEq, Eq)]
pub enum MultiRpcResult<T> {
    Consistent(RpcResult<T>),
    Inconsistent(Vec<(RpcService, RpcResult<T>)>),
}

impl<T> MultiRpcResult<T> {
    /// The sequence of underlying outcomes, identity omitted: one element for
    /// `Consistent`, the outcome half of every pair for `Inconsistent`, in
    /// original order.
    pub open spec fn outcomes(self) -> Seq<RpcResult<T>> {
        match self {
            MultiRpcResult::Consistent(outcome) => seq![outcome],
            MultiRpcResult::Inconsistent(entries) => entries@.map_values(
                |entry: (RpcService, RpcResult<T>)| entry.1,
            ),
        }
    }

    /// A read-only traversal of every underlying outcome, regardless of
    /// variant. Each call yields a fresh traversal, and provider identity is
    /// not exposed: callers needing attribution must match on `Inconsistent`
    /// directly.
    pub fn iter(&self) -> (outcomes: Vec<&RpcResult<T>>)
        ensures
            outcomes@.len() == self.outcomes().len(),
            forall|i: int| 0 <= i < outcomes@.len() ==> *outcomes@[i] == self.outcomes()[i],
    {
        match self {
            MultiRpcResult::Consistent(outcome) => {
                let mut collected: Vec<&RpcResult<T>> = Vec::new();
                collected.push(outcome);
                collected
            }
            MultiRpcResult::Inconsistent(entries) => {
                let mut collected: Vec<&RpcResult<T>> = Vec::new();
                let mut i: usize = 0;
                while i < entries.len()
                    invariant
                        i <= entries@.len(),
                        self == MultiRpcResult::Inconsistent(*entries),
                        collected@.len() == i,
                        forall|j: int| 0 <= j < i ==> *collected@[j] == self.outcomes()[j],
                    decreases entries@.len() - i,
                {
                    let entry = &entries[i];
                    collected.push(&entry.1);
                    i = i + 1;
                }
                collected
            }
        }
    }
}

/// The traversal is exhaustive: it visits exactly one outcome for
/// `Consistent` and exactly one outcome per entry for `Inconsistent`.
pub proof fn lemma_outcomes_len<T>(result: MultiRpcResult<T>)
    ensures
        result is Consistent ==> result.outcomes().len() == 1,
        result is Inconsistent ==> result.outcomes().len() == result->Inconsistent_0@.len(),
{
}

/// The traversal never observes provider identity: two `Inconsistent` results
/// whose entries pair the same outcomes with any identities whatsoever have
/// the same outcome sequence.
pub proof fn lemma_outcomes_ignore_identity<T>(a: MultiRpcResult<T>, b: MultiRpcResult<T>)
    requires
        a is Inconsistent,
        b is Inconsistent,
        a->Inconsistent_0@.len() == b->Inconsistent_0@.len(),
        forall|i: int|
            0 <= i < a->Inconsistent_0@.len() ==> a->Inconsistent_0@[i].1
                == b->Inconsistent_0@[i].1,
    ensures
        a.outcomes() == b.outcomes(),
{
    assert(a.outcomes() =~= b.outcomes());
}

} // verus!
