//! The browser-action executor's decisions: which URLs one run will
//! attempt, in which order, and what a single ad-hoc action does.  The
//! host shell performs the actual opens, one per planned URL, with its
//! timeout and pacing; a failed open never changes the plan, so one
//! bad action cannot suppress the rest.

use vstd::prelude::*;
use crate::browser::{BrowserAction, BrowserActionError};
use crate::urlcheck::{URLValidator, spec_url_ok, spec_reject_reason};

verus! {

/// The actions one run attempts: enabled, with an accepted URL, in
/// list order.
pub open spec fn spec_runnable(s: Seq<BrowserAction>) -> Seq<BrowserAction> {
    s.filter(|a: BrowserAction| a.enabled && spec_url_ok(a.url@))
}

/// Plan one run: the URLs of the enabled actions whose URL the
/// validator accepts, in list order.  Disabled and rejected actions
/// are skipped, never aborting the rest.
pub fn plan_actions(actions: &Vec<BrowserAction>) -> (r: Vec<String>)
    ensures
        r@.len() == spec_runnable(actions@).len(),
        forall|i: int| 0 <= i < r@.len() ==> #[trigger] r@[i]@ == spec_runnable(actions@)[i].url@,
{
    let validator = URLValidator::new();
    let mut out: Vec<String> = Vec::new();
    let n = actions.len();
    let mut i: usize = 0;
    proof {
        assert(actions@.take(0) =~= Seq::<BrowserAction>::empty());
        crate::lemma_filter_empty(|a: BrowserAction| a.enabled && spec_url_ok(a.url@));
    }
    while i < n
        invariant
            i <= n,
            n == actions@.len(),
            out@.len() == spec_runnable(actions@.take(i as int)).len(),
            forall|j: int|
                0 <= j < out@.len() ==> #[trigger] out@[j]@ == spec_runnable(
                    actions@.take(i as int),
                )[j].url@,
        decreases n - i,
    {
        proof {
            crate::lemma_filter_one_more(
                actions@,
                i as int,
                |a: BrowserAction| a.enabled && spec_url_ok(a.url@),
            );
        }
        let a = &actions[i];
        if a.enabled && validator.quick_validate(a.url.as_str()) {
            out.push(a.url.clone());
        }
        i = i + 1;
    }
    proof {
        assert(actions@.take(n as int) =~= actions@);
    }
    out
}

/// Decision for one ad-hoc action: a disabled action is a no-op, a
/// rejected URL is a security violation carrying the rejection reason,
/// and an accepted URL is handed back to be opened.
pub fn single_action_decision(action: &BrowserAction) -> (r: Result<
    Option<String>,
    BrowserActionError,
>)
    ensures
        !action.enabled ==> r == Ok::<Option<String>, BrowserActionError>(None),
        action.enabled && spec_url_ok(action.url@) ==> (match r {
            Ok(Some(u)) => u@ == action.url@,
            _ => false,
        }),
        action.enabled && !spec_url_ok(action.url@) ==> (match r {
            Err(BrowserActionError::SecurityViolation(m)) => m@ == spec_reject_reason(action.url@),
            _ => false,
        }),
{
    if !action.enabled {
        return Ok(None);
    }
    let validator = URLValidator::new();
    let outcome = validator.validate(action.url.as_str());
    if outcome.is_valid {
        Ok(Some(action.url.clone()))
    } else {
        match outcome.error {
            Some(reason) => Err(BrowserActionError::SecurityViolation(reason)),
            None => Err(BrowserActionError::SecurityViolation(String::new())),
        }
    }
}

/// Decision for testing one URL from the surface: accepted URLs are
/// handed back to be opened, rejected ones carry the reason.
pub fn test_url_decision(url: &str) -> (r: Result<(), BrowserActionError>)
    ensures
        spec_url_ok(url@) ==> r is Ok,
        !spec_url_ok(url@) ==> (match r {
            Err(BrowserActionError::SecurityViolation(m)) => m@ == spec_reject_reason(url@),
            _ => false,
        }),
{
    let validator = URLValidator::new();
    let outcome = validator.validate(url);
    if outcome.is_valid {
        Ok(())
    } else {
        match outcome.error {
            Some(reason) => Err(BrowserActionError::SecurityViolation(reason)),
            None => Err(BrowserActionError::SecurityViolation(String::new())),
        }
    }
}

/// Filtering an ordered action list keeps it ordered.
pub proof fn lemma_filter_keeps_order(s: Seq<BrowserAction>, pred: spec_fn(BrowserAction) -> bool)
    requires
        crate::browser::spec_sorted_by_order(s),
    ensures
        crate::browser::spec_sorted_by_order(s.filter(pred)),
    decreases s.len(),
{
    reveal(Seq::filter);
    if s.len() > 0 {
        let d = s.drop_last();
        assert(forall|i: int| 0 <= i < d.len() ==> d[i] == s[i]);
        assert(crate::browser::spec_sorted_by_order(d));
        lemma_filter_keeps_order(d, pred);
        let f = s.filter(pred);
        let df = d.filter(pred);
        if pred(s.last()) {
            assert(f == df + seq![s.last()]);
            assert forall|i: int, j: int| 0 <= i < j < f.len() implies #[trigger] f[i].order
                <= #[trigger] f[j].order by {
                if j < f.len() - 1 {
                    assert(f[i] == df[i] && f[j] == df[j]);
                } else {
                    assert(f[j] == s.last());
                    assert(f[i] == df[i]);
                    assert(df.contains(df[i]));
                    d.lemma_filter_contains_rev(pred, df[i]);
                    let k = choose|k: int| 0 <= k < d.len() && d[k] == df[i];
                    assert(s[k].order <= s.last().order);
                }
            }
        } else {
            assert(f == df);
        }
    }
}

/// Within one fired task the planned opens ascend in `order`: the
/// runnable subset of an order-sorted action list is itself
/// order-sorted.
pub proof fn lemma_plan_ascending(s: Seq<BrowserAction>)
    requires
        crate::browser::spec_sorted_by_order(s),
    ensures
        crate::browser::spec_sorted_by_order(spec_runnable(s)),
{
    lemma_filter_keeps_order(s, |a: BrowserAction| a.enabled && spec_url_ok(a.url@));
}

/// Partial-failure isolation: removing an action that the plan skips —
/// disabled, or with a rejected URL — leaves the planned URLs
/// unchanged, so one bad action never prevents the remaining actions
/// from running.
pub proof fn lemma_skipped_action_isolated(s: Seq<BrowserAction>, k: int)
    requires
        0 <= k < s.len(),
        !s[k].enabled || !spec_url_ok(s[k].url@),
    ensures
        spec_runnable(s.remove(k)) == spec_runnable(s),
{
    crate::lemma_filter_skips_removed(s, k, |a: BrowserAction| a.enabled && spec_url_ok(a.url@));
}

} // verus!
