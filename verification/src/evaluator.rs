//! The notification evaluator: a pure decision from one task and the
//! current instant to "fire with this payload" or "do not fire".
//!
//! A due-date reminder resolves a target instant (the due instant, its
//! time of day replaced when `timeOfDay` is set) and fires while `now`
//! lies between the window opening `daysBefore` days before the target
//! and the target itself.  A recurring reminder fires on its configured
//! weekdays when the forward distance from the target time of day to
//! `now`, wrapped at midnight, is within the tolerance.  A malformed
//! stored configuration never fires: the task is skipped.

use vstd::prelude::*;
use crate::model::{Task, TaskNotification};
use crate::time::{Instant, spec_parse_timestamp, spec_parse_time_of_day, parse_timestamp,
    parse_time_of_day};
use crate::config::{spec_parse_days, parse_days_of_week};
use crate::strings::str_eq;

verus! {

/// Minutes after a target during which a late scheduler wake still
/// counts as on time; equal to the scheduler's wake interval.
pub const TOLERANCE_MINUTES: u32 = 15;

/// Is the task's stored status `done`?
pub open spec fn spec_task_done(t: Task) -> bool {
    t.status@ == "done"@
}

/// The stored notification kind, if any.
pub open spec fn spec_kind(t: Task) -> Option<Seq<char>> {
    match t.notification_type {
        Some(k) => Some(k@),
        None => None,
    }
}

/// The task's effective escalation level; unset means the lowest.
pub open spec fn spec_level(t: Task) -> i32 {
    match t.notification_level {
        Some(l) => l,
        None => 1i32,
    }
}

/// Width of the due-date reminder window in days; unset means one.
pub open spec fn spec_days_before(t: Task) -> int {
    match t.notification_days_before {
        Some(d) => d as int,
        None => 1,
    }
}

/// The resolved due-date target instant: the parsed due instant, its
/// time of day replaced when `timeOfDay` is set; `None` when either
/// stored text is malformed or no due date is stored.
pub open spec fn spec_due_target(t: Task) -> Option<Instant> {
    match t.due_date {
        None => None,
        Some(ds) => match spec_parse_timestamp(ds@) {
            None => None,
            Some(due) => match t.notification_time {
                None => Some(due),
                Some(ts) => match spec_parse_time_of_day(ts@) {
                    None => None,
                    Some(hm) => Some(
                        Instant { days: due.days, minute: (hm.0 * 60 + hm.1) as u32 },
                    ),
                },
            },
        },
    }
}

/// Does a due-date reminder fire at `now`: the target is resolved and
/// `now` lies in the window `[target - daysBefore days, target]`.
pub open spec fn spec_due_fires(t: Task, now: Instant) -> bool {
    match spec_due_target(t) {
        Some(target) => {
            let diff = target.spec_total_minutes() - now.spec_total_minutes();
            0 <= diff <= spec_days_before(t) * 1440
        },
        None => false,
    }
}

/// Whole days between the evaluation day and the target day.
pub open spec fn spec_due_days_until(t: Task, now: Instant) -> int {
    match spec_due_target(t) {
        Some(target) => target.days - now.days,
        None => 0,
    }
}

/// The parsed recurring configuration: the weekday set and the target
/// minute of day; `None` when either stored text is missing or
/// malformed.
pub open spec fn spec_recurring_config(t: Task) -> Option<(Seq<u32>, int)> {
    match (t.notification_time, t.notification_days_of_week) {
        (Some(ts), Some(ds)) => match (spec_parse_time_of_day(ts@), spec_parse_days(ds@)) {
            (Some(hm), Some(days)) => Some((days, hm.0 * 60 + hm.1)),
            _ => None,
        },
        _ => None,
    }
}

/// Does a recurring reminder fire at `now`: the weekday is configured
/// and the forward distance from the target minute, wrapped at
/// midnight, is within the tolerance.
pub open spec fn spec_recurring_fires(t: Task, now: Instant) -> bool {
    match spec_recurring_config(t) {
        Some(cfg) => cfg.0.contains(now.spec_weekday() as u32) && (now.spec_minute_of_day()
            - cfg.1) % 1440 <= TOLERANCE_MINUTES,
        None => false,
    }
}

/// The whole fire decision of one task at one instant.
pub open spec fn spec_fires(t: Task, now: Instant) -> bool {
    &&& !spec_task_done(t)
    &&& match t.notification_type {
        Some(k) => if k@ == "due_date_based"@ {
            spec_due_fires(t, now)
        } else if k@ == "recurring"@ {
            spec_recurring_fires(t, now)
        } else {
            false
        },
        None => false,
    }
}

/// Is `n` the reminder payload that task `t` fires at `now`?
pub open spec fn spec_notifies(n: TaskNotification, t: Task, now: Instant) -> bool {
    &&& n.task_id == t.id
    &&& n.title == t.title
    &&& n.level == spec_level(t)
    &&& spec_kind(t) == Some("due_date_based"@) ==> n.notification_type@ == "due_date_based"@
        && n.days_until_due == Some(spec_due_days_until(t, now) as i64)
    &&& spec_kind(t) == Some("recurring"@) ==> n.notification_type@ == "recurring"@
        && n.days_until_due is None
}

/// Evaluate one task at one instant: fires exactly on `spec_fires`,
/// and the payload carries the task's identity, its effective level,
/// and — for a due-date reminder — the days until the target.
pub fn evaluate(task: &Task, now: Instant) -> (r: Option<TaskNotification>)
    requires
        now.wf(),
    ensures
        r is Some <==> spec_fires(*task, now),
        r matches Some(n) ==> spec_notifies(n, *task, now),
{
    proof {
        lemma_kinds_differ();
    }
    if str_eq(task.status.as_str(), "done") {
        return None;
    }
    match &task.notification_type {
        None => None,
        Some(k) => {
            if str_eq(k.as_str(), "due_date_based") {
                eval_due(task, now)
            } else if str_eq(k.as_str(), "recurring") {
                eval_recurring(task, now)
            } else {
                None
            }
        },
    }
}

/// The due-date rule.
fn eval_due(task: &Task, now: Instant) -> (r: Option<TaskNotification>)
    requires
        now.wf(),
    ensures
        r is Some <==> spec_due_fires(*task, now),
        r matches Some(n) ==> n.task_id == task.id && n.title == task.title && n.level
            == spec_level(*task) && n.notification_type@ == "due_date_based"@ && n.days_until_due
            == Some(spec_due_days_until(*task, now) as i64),
{
    let due_str = match &task.due_date {
        Some(d) => d,
        None => {
            return None;
        },
    };
    let due = match parse_timestamp(due_str.as_str()) {
        Some(i) => i,
        None => {
            return None;
        },
    };
    let target = match &task.notification_time {
        None => due,
        Some(ts) => match parse_time_of_day(ts.as_str()) {
            Some(hm) => Instant { days: due.days, minute: hm.0 * 60 + hm.1 },
            None => {
                return None;
            },
        },
    };
    let days_before: i64 = match task.notification_days_before {
        Some(d) => d as i64,
        None => 1,
    };
    let diff: i64 = target.total_minutes() - now.total_minutes();
    if 0 <= diff && diff <= days_before * 1440 {
        Some(
            TaskNotification {
                task_id: task.id.clone(),
                title: task.title.clone(),
                level: match task.notification_level {
                    Some(l) => l,
                    None => 1,
                },
                days_until_due: Some(target.days - now.days),
                notification_type: String::from_str("due_date_based"),
            },
        )
    } else {
        None
    }
}

/// The recurring rule.
fn eval_recurring(task: &Task, now: Instant) -> (r: Option<TaskNotification>)
    requires
        now.wf(),
    ensures
        r is Some <==> spec_recurring_fires(*task, now),
        r matches Some(n) ==> n.task_id == task.id && n.title == task.title && n.level
            == spec_level(*task) && n.notification_type@ == "recurring"@
            && n.days_until_due is None,
{
    let ts = match &task.notification_time {
        Some(t) => t,
        None => {
            return None;
        },
    };
    let ds = match &task.notification_days_of_week {
        Some(d) => d,
        None => {
            return None;
        },
    };
    let hm = match parse_time_of_day(ts.as_str()) {
        Some(p) => p,
        None => {
            return None;
        },
    };
    let days = match parse_days_of_week(ds.as_str()) {
        Some(v) => v,
        None => {
            return None;
        },
    };
    let wd = now.weekday();
    let mut found = false;
    let mut i: usize = 0;
    let n = days.len();
    while i < n
        invariant
            i <= n,
            n == days@.len(),
            found <==> exists|j: int| 0 <= j < i && days@[j] == wd,
        decreases n - i,
    {
        if days[i] == wd {
            found = true;
        }
        i = i + 1;
    }
    if !found {
        assert(!days@.contains(wd));
        return None;
    }
    assert(days@.contains(wd));
    let target: u32 = hm.0 * 60 + hm.1;
    let nowm: u32 = now.minute;
    let diff: u32 = if nowm >= target {
        nowm - target
    } else {
        1440 + nowm - target
    };
    proof {
        let a = nowm as int - target as int;
        if a >= 0 {
            vstd::arithmetic::div_mod::lemma_small_mod(a as nat, 1440);
        } else {
            vstd::arithmetic::div_mod::lemma_mod_multiples_vanish(1, a, 1440);
            vstd::arithmetic::div_mod::lemma_small_mod((a + 1440) as nat, 1440);
        }
        assert(diff == (now.spec_minute_of_day() - target) % 1440);
    }
    if diff <= TOLERANCE_MINUTES {
        Some(
            TaskNotification {
                task_id: task.id.clone(),
                title: task.title.clone(),
                level: match task.notification_level {
                    Some(l) => l,
                    None => 1,
                },
                days_until_due: None,
                notification_type: String::from_str("recurring"),
            },
        )
    } else {
        None
    }
}

/// The tasks of a snapshot that fire at `now`, in snapshot order.
pub open spec fn spec_firing(tasks: Seq<Task>, now: Instant) -> Seq<Task> {
    tasks.filter(|t: Task| spec_fires(t, now))
}

/// One evaluation sweep: every task of the snapshot is evaluated at
/// `now`, and the reminders of the firing tasks come back in snapshot
/// order.
pub fn run_sweep(tasks: &Vec<Task>, now: Instant) -> (r: Vec<TaskNotification>)
    requires
        now.wf(),
    ensures
        r@.len() == spec_firing(tasks@, now).len(),
        forall|i: int|
            0 <= i < r@.len() ==> spec_notifies(#[trigger] r@[i], spec_firing(tasks@, now)[i], now),
{
    let mut out: Vec<TaskNotification> = Vec::new();
    let n = tasks.len();
    let mut i: usize = 0;
    proof {
        assert(tasks@.take(0) =~= Seq::<Task>::empty());
        crate::lemma_filter_empty(|t: Task| spec_fires(t, now));
    }
    while i < n
        invariant
            i <= n,
            n == tasks@.len(),
            now.wf(),
            out@.len() == spec_firing(tasks@.take(i as int), now).len(),
            forall|j: int|
                0 <= j < out@.len() ==> spec_notifies(
                    #[trigger] out@[j],
                    spec_firing(tasks@.take(i as int), now)[j],
                    now,
                ),
        decreases n - i,
    {
        proof {
            crate::lemma_filter_one_more(tasks@, i as int, |t: Task| spec_fires(t, now));
        }
        match evaluate(&tasks[i], now) {
            Some(notification) => {
                out.push(notification);
            },
            None => {},
        }
        i = i + 1;
    }
    proof {
        assert(tasks@.take(n as int) =~= tasks@);
    }
    out
}

/// The two stored notification kinds have different texts.
pub proof fn lemma_kinds_differ()
    ensures
        "due_date_based"@ != "recurring"@,
{
    reveal_strlit("due_date_based");
    reveal_strlit("recurring");
    assert("due_date_based"@.len() == 14);
    assert("recurring"@.len() == 9);
}

/// One task never suppresses the others: a task that does not fire —
/// done, malformed, or out of its window — can be removed from the
/// snapshot without changing which tasks fire in the sweep.
pub proof fn lemma_sweep_isolation(tasks: Seq<Task>, now: Instant, k: int)
    requires
        0 <= k < tasks.len(),
        !spec_fires(tasks[k], now),
    ensures
        spec_firing(tasks.remove(k), now) == spec_firing(tasks, now),
{
    crate::lemma_filter_skips_removed(tasks, k, |t: Task| spec_fires(t, now));
}

/// A done task never fires, whatever its configuration and whatever
/// the instant.
pub proof fn lemma_done_never_fires(t: Task, now: Instant)
    requires
        spec_task_done(t),
    ensures
        !spec_fires(t, now),
{
}

/// The due-date window is exact: a due-date task with a resolved
/// target is fireable exactly while `now` lies between the window
/// opening, `daysBefore` days before the target, and the target
/// itself — never outside it.
pub proof fn lemma_due_window(t: Task, now: Instant)
    requires
        !spec_task_done(t),
        spec_kind(t) == Some("due_date_based"@),
        spec_due_target(t) is Some,
    ensures
        spec_fires(t, now) <==> spec_due_target(t).unwrap().spec_total_minutes()
            - spec_days_before(t) * 1440 <= now.spec_total_minutes() <= spec_due_target(
            t,
        ).unwrap().spec_total_minutes(),
{
    assert(t.notification_type matches Some(k) && k@ == "due_date_based"@);
}

/// The recurring day filter is exact: on a weekday outside the
/// configured set the reminder never fires, at any time of day.
pub proof fn lemma_recurring_day_filter(t: Task, now: Instant)
    requires
        spec_kind(t) == Some("recurring"@),
        match spec_recurring_config(t) {
            Some(cfg) => !cfg.0.contains(now.spec_weekday() as u32),
            None => true,
        },
    ensures
        !spec_fires(t, now),
{
    lemma_kinds_differ();
}

/// Midnight rollover: a recurring reminder targeted at 23:30 on a
/// configured weekday fires from 23:30 through 23:30 plus the
/// tolerance, and does not fire at 00:05 of the same day, whose
/// wrapped distance from the target is 35 minutes.
pub proof fn lemma_rollover(t: Task, now: Instant)
    requires
        !spec_task_done(t),
        spec_kind(t) == Some("recurring"@),
        match spec_recurring_config(t) {
            Some(cfg) => cfg.1 == 1410 && cfg.0.contains(now.spec_weekday() as u32),
            None => false,
        },
    ensures
        1410 <= now.spec_minute_of_day() <= 1410 + TOLERANCE_MINUTES ==> spec_fires(t, now),
        now.spec_minute_of_day() == 5 ==> !spec_fires(t, now),
{
    lemma_kinds_differ();
    let m = now.spec_minute_of_day();
    if 1410 <= m <= 1410 + TOLERANCE_MINUTES {
        vstd::arithmetic::div_mod::lemma_small_mod((m - 1410) as nat, 1440);
    }
    if m == 5 {
        vstd::arithmetic::div_mod::lemma_mod_multiples_vanish(1, m - 1410, 1440);
        vstd::arithmetic::div_mod::lemma_small_mod(35nat, 1440);
    }
}

} // verus!
