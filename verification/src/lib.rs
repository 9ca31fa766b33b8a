//! Notification timing and delivery engine for a personal task manager.
//!
//! The library decides, from a task's declarative notification
//! configuration and the current instant, whether a reminder fires, and
//! turns a fired reminder into a plan of side effects (alert, sound,
//! window focus, browser actions) with level-based escalation.

pub mod agent;
pub mod browser;
pub mod config;
pub mod context;
pub mod dispatcher;
pub mod evaluator;
pub mod executor;
pub mod model;
pub mod prompts;
pub mod scheduler;
pub mod strings;
pub mod time;
pub mod urlcheck;

use vstd::prelude::*;

verus! {

/// Filtering nothing yields nothing.
pub proof fn lemma_filter_empty<A>(pred: spec_fn(A) -> bool)
    ensures
        Seq::<A>::empty().filter(pred) == Seq::<A>::empty(),
{
    reveal(Seq::filter);
}

/// Extending a filtered prefix by one element appends that element
/// exactly when the predicate holds of it.
pub proof fn lemma_filter_one_more<A>(s: Seq<A>, i: int, pred: spec_fn(A) -> bool)
    requires
        0 <= i < s.len(),
    ensures
        pred(s[i]) ==> s.take(i + 1).filter(pred) == s.take(i).filter(pred) + seq![s[i]],
        !pred(s[i]) ==> s.take(i + 1).filter(pred) == s.take(i).filter(pred),
{
    reveal(Seq::filter);
    assert(s.take(i + 1).drop_last() =~= s.take(i));
    assert(s.take(i + 1).last() == s[i]);
    if !pred(s[i]) {
        assert(s.take(i + 1).filter(pred) =~= s.take(i).filter(pred));
    }
}

/// Removing an element the predicate rejects leaves the filtered
/// sequence unchanged.
pub proof fn lemma_filter_skips_removed<A>(s: Seq<A>, k: int, pred: spec_fn(A) -> bool)
    requires
        0 <= k < s.len(),
        !pred(s[k]),
    ensures
        s.remove(k).filter(pred) == s.filter(pred),
{
    let left = s.take(k);
    let mid = seq![s[k]];
    let right = s.skip(k + 1);
    assert(s =~= left + mid + right);
    assert(s.remove(k) =~= left + right);
    Seq::<A>::filter_distributes_over_add(left + mid, right, pred);
    Seq::<A>::filter_distributes_over_add(left, mid, pred);
    Seq::<A>::filter_distributes_over_add(left, right, pred);
    assert(mid.filter(pred) =~= Seq::<A>::empty()) by {
        reveal_with_fuel(Seq::filter, 2);
        assert(mid.drop_last() =~= Seq::<A>::empty());
    }
}

} // verus!
