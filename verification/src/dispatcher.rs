//! The dispatcher: it turns a fired reminder into a plan of side
//! effects with level-based escalation.  The alert always shows; level
//! 2 adds an audible cue; level 3 adds a foreground request and the
//! task's browser actions.  The host performs the plan; only the alert
//! itself can fail a dispatch, everything further is best effort.

use vstd::prelude::*;
use crate::model::TaskNotification;
use crate::browser::{BrowserActionSettings, spec_enabled_actions};
use crate::executor::{spec_runnable, plan_actions};
use crate::evaluator::lemma_kinds_differ;
use crate::strings::str_eq;

verus! {

/// Does the reminder's level ask for the audible cue?
pub open spec fn spec_plays_sound(n: TaskNotification) -> bool {
    n.level >= 2
}

/// Does the reminder's level ask for the window to come forward?
pub open spec fn spec_brings_to_front(n: TaskNotification) -> bool {
    n.level >= 3
}

/// The alert title: due-date reminders are bucketed by urgency, the
/// other kinds get their own fixed title.
pub open spec fn spec_alert_title(n: TaskNotification) -> Seq<char> {
    if n.notification_type@ == "due_date_based"@ {
        match n.days_until_due {
            Some(d) => if d <= 0 {
                "Task due today"@
            } else if d == 1 {
                "Task due tomorrow"@
            } else {
                "Task due soon"@
            },
            None => "Task due soon"@,
        }
    } else if n.notification_type@ == "recurring"@ {
        "Recurring reminder"@
    } else {
        "Task reminder"@
    }
}

/// The URLs the plan will open: the runnable subset of the enabled
/// actions, and only for a level-3 reminder with an enabled action
/// set.
pub open spec fn spec_dispatch_urls(n: TaskNotification, a: Option<BrowserActionSettings>) -> Seq<
    crate::browser::BrowserAction,
> {
    if spec_brings_to_front(n) {
        match a {
            Some(s) => spec_runnable(spec_enabled_actions(s)),
            None => Seq::empty(),
        }
    } else {
        Seq::empty()
    }
}

/// The side effects one fired reminder asks of the host.
#[derive(Clone, Debug, PartialEq)]
pub struct DispatchPlan {
    pub alert_title: String,
    pub alert_body: String,
    pub play_sound: bool,
    pub bring_to_front: bool,
    pub open_urls: Vec<String>,
}

/// Build the side-effect plan of a fired reminder.  The alert carries
/// the bucketed title and the task's title as body; the cue, the
/// foreground request and the browser actions follow the level
/// exactly.  A missing or disabled action set, like a level below 3,
/// opens nothing.
pub fn build_dispatch_plan(n: &TaskNotification, actions: Option<&BrowserActionSettings>) -> (p:
    DispatchPlan)
    ensures
        p.alert_title@ == spec_alert_title(*n),
        p.alert_body == n.title,
        p.play_sound == spec_plays_sound(*n),
        p.bring_to_front == spec_brings_to_front(*n),
        p.open_urls@.len() == spec_dispatch_urls(*n, opt_value(actions)).len(),
        forall|i: int|
            0 <= i < p.open_urls@.len() ==> #[trigger] p.open_urls@[i]@ == spec_dispatch_urls(
                *n,
                opt_value(actions),
            )[i].url@,
{
    proof {
        lemma_kinds_differ();
    }
    let alert_title: String = if str_eq(n.notification_type.as_str(), "due_date_based") {
        match n.days_until_due {
            Some(d) => if d <= 0 {
                String::from_str("Task due today")
            } else if d == 1 {
                String::from_str("Task due tomorrow")
            } else {
                String::from_str("Task due soon")
            },
            None => String::from_str("Task due soon"),
        }
    } else if str_eq(n.notification_type.as_str(), "recurring") {
        String::from_str("Recurring reminder")
    } else {
        String::from_str("Task reminder")
    };
    let play_sound = n.level >= 2;
    let bring_to_front = n.level >= 3;
    let open_urls: Vec<String> = if bring_to_front {
        match actions {
            Some(settings) => {
                let enabled = settings.get_enabled_actions();
                plan_actions(&enabled)
            },
            None => Vec::new(),
        }
    } else {
        Vec::new()
    };
    DispatchPlan {
        alert_title,
        alert_body: n.title.clone(),
        play_sound,
        bring_to_front,
        open_urls,
    }
}

/// The settings behind an optional reference.
pub open spec fn opt_value(a: Option<&BrowserActionSettings>) -> Option<BrowserActionSettings> {
    match a {
        Some(s) => Some(*s),
        None => None,
    }
}

/// Ordering of the opens: whenever the stored action list ascends in
/// `order`, so do the actions a fired reminder opens.
pub proof fn lemma_dispatch_ascending(n: TaskNotification, s: BrowserActionSettings)
    requires
        crate::browser::spec_sorted_by_order(s.actions@),
    ensures
        crate::browser::spec_sorted_by_order(spec_dispatch_urls(n, Some(s))),
{
    if spec_brings_to_front(n) {
        if s.enabled {
            crate::executor::lemma_filter_keeps_order(s.actions@, |a: crate::browser::BrowserAction| a.enabled);
            crate::executor::lemma_plan_ascending(spec_enabled_actions(s));
        }
    }
}

/// Escalation monotonicity: every level shows the alert; level 3 does
/// everything the lower levels do — the cue of level 2 — plus the
/// foreground request and the browser actions; a level-1 reminder
/// never plays the cue and never opens a URL.
pub proof fn lemma_escalation_monotonic(n: TaskNotification, a: Option<BrowserActionSettings>)
    ensures
        spec_brings_to_front(n) ==> spec_plays_sound(n),
        n.level >= 3 ==> spec_plays_sound(n) && spec_brings_to_front(n),
        n.level <= 1 ==> !spec_plays_sound(n) && !spec_brings_to_front(n) && spec_dispatch_urls(
            n,
            a,
        ) =~= Seq::empty(),
{
}

} // verus!
