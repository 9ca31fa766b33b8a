//! Evaluator behavior: the due-date window, the recurring weekday and
//! tolerance rules, midnight rollover, malformed-configuration
//! skipping, and the sweep.

use tasknag::evaluator::{evaluate, run_sweep};
use tasknag::model::Task;
use tasknag::time::Instant;
use uuid::Uuid;
use chrono::Utc;

fn base_task() -> Task {
    Task {
        id: Uuid::new_v4().to_string(),
        title: "Test Notification Task".to_string(),
        description: Some("Testing notification settings".to_string()),
        status: "todo".to_string(),
        priority: "medium".to_string(),
        parent_id: None,
        due_date: None,
        completed_at: None,
        created_at: Utc::now().to_rfc3339(),
        updated_at: Utc::now().to_rfc3339(),
        progress: Some(0),
        notification_type: Some("none".to_string()),
        notification_days_before: None,
        notification_time: None,
        notification_days_of_week: None,
        notification_level: Some(1),
    }
}

fn due_task(due: &str, days_before: i32, time_of_day: Option<&str>, level: i32) -> Task {
    let mut t = base_task();
    t.notification_type = Some("due_date_based".to_string());
    t.due_date = Some(due.to_string());
    t.notification_days_before = Some(days_before);
    t.notification_time = time_of_day.map(|s| s.to_string());
    t.notification_level = Some(level);
    t
}

fn recurring_task(days: &str, time_of_day: &str, level: i32) -> Task {
    let mut t = base_task();
    t.notification_type = Some("recurring".to_string());
    t.notification_days_of_week = Some(days.to_string());
    t.notification_time = Some(time_of_day.to_string());
    t.notification_level = Some(level);
    t
}

fn at(y: u32, m: u32, d: u32, h: u32, mi: u32) -> Instant {
    Instant::from_civil(y, m, d, h, mi).unwrap()
}

#[test]
fn test_scenario_due_date_window() {
    // Due 2025-03-10T15:00:00, one day before, no timeOfDay, level 2.
    let task = due_task("2025-03-10T15:00:00", 1, None, 2);

    // Five minutes after the window opens: fires, due tomorrow.
    let fired = evaluate(&task, at(2025, 3, 9, 15, 5)).expect("should fire inside the window");
    assert_eq!(fired.task_id, task.id);
    assert_eq!(fired.title, task.title);
    assert_eq!(fired.level, 2);
    assert_eq!(fired.notification_type, "due_date_based");
    assert_eq!(fired.days_until_due, Some(1));

    // A day before the window opens: too early.
    assert!(evaluate(&task, at(2025, 3, 8, 15, 5)).is_none());

    // Window boundaries: exactly at opening and exactly at the target.
    assert!(evaluate(&task, at(2025, 3, 9, 15, 0)).is_some());
    assert!(evaluate(&task, at(2025, 3, 10, 15, 0)).is_some());

    // One minute before the window opens, one minute past the target.
    assert!(evaluate(&task, at(2025, 3, 9, 14, 59)).is_none());
    assert!(evaluate(&task, at(2025, 3, 10, 15, 1)).is_none());

    // At the target instant the task is due today.
    let at_target = evaluate(&task, at(2025, 3, 10, 15, 0)).unwrap();
    assert_eq!(at_target.days_until_due, Some(0));
}

#[test]
fn test_due_date_time_of_day_override() {
    // timeOfDay replaces the due instant's own time.
    let task = due_task("2025-03-10T15:00:00", 0, Some("09:00"), 1);

    assert!(evaluate(&task, at(2025, 3, 10, 9, 0)).is_some());
    assert!(evaluate(&task, at(2025, 3, 10, 8, 59)).is_none());
    assert!(evaluate(&task, at(2025, 3, 10, 9, 1)).is_none());
}

#[test]
fn test_done_task_never_fires() {
    let mut task = due_task("2025-03-10T15:00:00", 1, None, 3);
    task.status = "done".to_string();
    assert!(evaluate(&task, at(2025, 3, 9, 15, 5)).is_none());

    let mut recurring = recurring_task("[0,1,2,3,4,5,6]", "09:00", 3);
    recurring.status = "done".to_string();
    assert!(evaluate(&recurring, at(2025, 3, 12, 9, 5)).is_none());
}

#[test]
fn test_kind_none_never_fires() {
    let mut task = due_task("2025-03-10T15:00:00", 1, None, 2);
    task.notification_type = Some("none".to_string());
    assert!(evaluate(&task, at(2025, 3, 9, 15, 5)).is_none());

    task.notification_type = None;
    assert!(evaluate(&task, at(2025, 3, 9, 15, 5)).is_none());
}

#[test]
fn test_scenario_recurring_weekday() {
    // Recurring Mon/Wed/Fri at 09:00; 2025-03-12 is a Wednesday and
    // 2025-03-13 a Thursday.
    let task = recurring_task("[1,3,5]", "09:00", 2);

    let fired = evaluate(&task, at(2025, 3, 12, 9, 5)).expect("fires on Wednesday");
    assert_eq!(fired.notification_type, "recurring");
    assert_eq!(fired.days_until_due, None);
    assert_eq!(fired.level, 2);

    assert!(evaluate(&task, at(2025, 3, 13, 9, 5)).is_none());
}

#[test]
fn test_recurring_day_filter_whole_day() {
    // Mon/Wed/Fri never fires on Sunday (2025-03-09), Tuesday (03-11),
    // Thursday (03-13) or Saturday (03-15), at any time of day.
    let task = recurring_task("[1,3,5]", "09:00", 1);
    for (m, d) in [(3, 9), (3, 11), (3, 13), (3, 15)] {
        for h in 0..24 {
            for mi in [0, 15, 30, 45] {
                assert!(evaluate(&task, at(2025, m, d, h, mi)).is_none());
            }
        }
    }
}

#[test]
fn test_recurring_tolerance() {
    let task = recurring_task("[0,1,2,3,4,5,6]", "09:00", 1);

    assert!(evaluate(&task, at(2025, 3, 12, 9, 0)).is_some());
    assert!(evaluate(&task, at(2025, 3, 12, 9, 15)).is_some());
    assert!(evaluate(&task, at(2025, 3, 12, 9, 16)).is_none());
    assert!(evaluate(&task, at(2025, 3, 12, 8, 59)).is_none());
}

#[test]
fn test_scenario_rollover() {
    // Target 23:30: fires through 23:45; 00:05 of the same day is 35
    // wrapped minutes away and must not fire.
    let task = recurring_task("[0,1,2,3,4,5,6]", "23:30", 1);

    assert!(evaluate(&task, at(2025, 3, 12, 23, 30)).is_some());
    assert!(evaluate(&task, at(2025, 3, 12, 23, 45)).is_some());
    assert!(evaluate(&task, at(2025, 3, 12, 23, 46)).is_none());
    assert!(evaluate(&task, at(2025, 3, 12, 0, 5)).is_none());

    // A target near midnight whose tolerance crosses it fires just
    // after midnight.
    let late = recurring_task("[0,1,2,3,4,5,6]", "23:55", 1);
    assert!(evaluate(&late, at(2025, 3, 13, 0, 5)).is_some());
    assert!(evaluate(&late, at(2025, 3, 13, 0, 11)).is_none());
}

#[test]
fn test_malformed_configuration_skips_task() {
    // Malformed timeOfDay.
    let bad_time = recurring_task("[1,3,5]", "noon", 2);
    assert!(evaluate(&bad_time, at(2025, 3, 12, 9, 5)).is_none());

    // Malformed daysOfWeek JSON.
    let bad_days = recurring_task("not-json", "09:00", 2);
    assert!(evaluate(&bad_days, at(2025, 3, 12, 9, 5)).is_none());

    // Malformed due date.
    let bad_due = due_task("2025/03/10", 1, None, 2);
    assert!(evaluate(&bad_due, at(2025, 3, 9, 15, 5)).is_none());

    // Calendar-invalid due date.
    let bad_day = due_task("2025-02-30T10:00:00", 1, None, 2);
    assert!(evaluate(&bad_day, at(2025, 2, 28, 10, 0)).is_none());

    // Due-date kind without a stored due date.
    let mut no_due = base_task();
    no_due.notification_type = Some("due_date_based".to_string());
    assert!(evaluate(&no_due, at(2025, 3, 9, 15, 5)).is_none());
}

#[test]
fn test_level_defaults_to_one() {
    let mut task = recurring_task("[0,1,2,3,4,5,6]", "09:00", 1);
    task.notification_level = None;
    let fired = evaluate(&task, at(2025, 3, 12, 9, 0)).unwrap();
    assert_eq!(fired.level, 1);
}

#[test]
fn test_sweep_skips_malformed_and_keeps_order() {
    let now = at(2025, 3, 12, 9, 5);

    let mut first = recurring_task("[3]", "09:00", 1);
    first.title = "first".to_string();
    let mut broken = recurring_task("oops", "09:00", 2);
    broken.title = "broken".to_string();
    let mut done = recurring_task("[3]", "09:00", 2);
    done.title = "done already".to_string();
    done.status = "done".to_string();
    let mut last = recurring_task("[3]", "09:05", 3);
    last.title = "last".to_string();

    let tasks = vec![first, broken, done, last];
    let fired = run_sweep(&tasks, now);

    assert_eq!(fired.len(), 2);
    assert_eq!(fired[0].title, "first");
    assert_eq!(fired[1].title, "last");
    assert_eq!(fired[1].level, 3);
}

#[test]
fn test_days_of_week_with_spaces_and_empty() {
    let spaced = recurring_task("[ 1, 3 , 5 ]", "09:00", 1);
    assert!(evaluate(&spaced, at(2025, 3, 12, 9, 5)).is_some());

    let empty = recurring_task("[]", "09:00", 1);
    assert!(evaluate(&empty, at(2025, 3, 12, 9, 5)).is_none());

    let out_of_range = recurring_task("[8]", "09:00", 1);
    assert!(evaluate(&out_of_range, at(2025, 3, 12, 9, 5)).is_none());
}
