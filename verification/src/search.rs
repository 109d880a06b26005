//! Trying candidates in order until one succeeds.
//!
//! The resolver, the launcher and the readiness poller all walk a list and
//! stop at the first success. This module states once where such a walk
//! stops and how many steps it takes.

use vstd::prelude::*;

verus! {

/// Index of the first `true` in `verdicts`, or its length where there is none.
pub open spec fn first_valid(verdicts: Seq<bool>) -> nat
    decreases verdicts.len(),
{
    if verdicts.len() == 0 {
        0
    } else if verdicts[0] {
        0
    } else {
        1 + first_valid(verdicts.drop_first())
    }
}

/// How many candidates are probed when probing candidate `i` would answer
/// `verdicts[i]`: the walk stops with the first success.
pub open spec fn probes_needed(verdicts: Seq<bool>) -> nat {
    if first_valid(verdicts) < verdicts.len() {
        first_valid(verdicts) + 1
    } else {
        verdicts.len()
    }
}

/// `first_valid` is the least index that holds `true`.
pub proof fn lemma_first_valid(verdicts: Seq<bool>)
    ensures
        first_valid(verdicts) <= verdicts.len(),
        first_valid(verdicts) < verdicts.len() ==> verdicts[first_valid(verdicts) as int],
        forall|i: int| 0 <= i < first_valid(verdicts) ==> !#[trigger] verdicts[i],
    decreases verdicts.len(),
{
    if verdicts.len() > 0 && !verdicts[0] {
        let rest = verdicts.drop_first();
        lemma_first_valid(rest);
        assert forall|i: int| 0 <= i < first_valid(verdicts) implies !#[trigger] verdicts[i] by {
            if i > 0 {
                assert(verdicts[i] == rest[i - 1]);
            }
        }
    }
}

/// An index that holds `true` after only `false` is the first valid one.
pub proof fn lemma_first_valid_at(verdicts: Seq<bool>, k: int)
    requires
        0 <= k <= verdicts.len(),
        forall|i: int| 0 <= i < k ==> !#[trigger] verdicts[i],
        k < verdicts.len() ==> verdicts[k],
    ensures
        first_valid(verdicts) == k,
{
    lemma_first_valid(verdicts);
}

} // verus!
