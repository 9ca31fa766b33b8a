//! The task data model, as the storage layer hands it to the engine:
//! plain text and integer fields, with the notification configuration
//! embedded as stored strings (`timeOfDay` as `HH:MM`, `daysOfWeek` as
//! a JSON array of weekday numbers).

use vstd::prelude::*;
use crate::strings::str_eq;

verus! {

/// Lifecycle state of a task.  Tasks that are done are never evaluated
/// for notifications.
#[derive(Clone, Copy, Debug, PartialEq, Eq, Structural)]
pub enum TaskStatus {
    Inbox,
    Todo,
    InProgress,
    Done,
}

impl TaskStatus {
    /// The stored text of the status.
    pub open spec fn spec_str(self) -> Seq<char> {
        match self {
            TaskStatus::Inbox => "inbox"@,
            TaskStatus::Todo => "todo"@,
            TaskStatus::InProgress => "in_progress"@,
            TaskStatus::Done => "done"@,
        }
    }

    /// Render the status as its stored text.
    pub fn as_str(&self) -> (r: &'static str)
        ensures
            r@ == self.spec_str(),
    {
        match self {
            TaskStatus::Inbox => "inbox",
            TaskStatus::Todo => "todo",
            TaskStatus::InProgress => "in_progress",
            TaskStatus::Done => "done",
        }
    }

    /// Read a status from its stored text; errs on any other text.
    pub fn from_str(s: &str) -> (r: Result<TaskStatus, String>)
        ensures
            r matches Ok(st) ==> st.spec_str() == s@,
            r is Err <==> (s@ != "inbox"@ && s@ != "todo"@ && s@ != "in_progress"@ && s@
                != "done"@),
    {
        if str_eq(s, "inbox") {
            Ok(TaskStatus::Inbox)
        } else if str_eq(s, "todo") {
            Ok(TaskStatus::Todo)
        } else if str_eq(s, "in_progress") {
            Ok(TaskStatus::InProgress)
        } else if str_eq(s, "done") {
            Ok(TaskStatus::Done)
        } else {
            Err(String::from_str("invalid status"))
        }
    }
}

/// Priority of a task, kept for the storage layer; the notification
/// engine does not read it.
#[derive(Clone, Copy, Debug, PartialEq, Eq, Structural)]
pub enum Priority {
    Low,
    Medium,
    High,
    Required,
}

impl Priority {
    /// The stored text of the priority.
    pub open spec fn spec_str(self) -> Seq<char> {
        match self {
            Priority::Low => "low"@,
            Priority::Medium => "medium"@,
            Priority::High => "high"@,
            Priority::Required => "required"@,
        }
    }

    /// Render the priority as its stored text.
    pub fn as_str(&self) -> (r: &'static str)
        ensures
            r@ == self.spec_str(),
    {
        match self {
            Priority::Low => "low",
            Priority::Medium => "medium",
            Priority::High => "high",
            Priority::Required => "required",
        }
    }

    /// Read a priority from its stored text; errs on any other text.
    pub fn from_str(s: &str) -> (r: Result<Priority, String>)
        ensures
            r matches Ok(p) ==> p.spec_str() == s@,
            r is Err <==> (s@ != "low"@ && s@ != "medium"@ && s@ != "high"@ && s@ != "required"@),
    {
        if str_eq(s, "low") {
            Ok(Priority::Low)
        } else if str_eq(s, "medium") {
            Ok(Priority::Medium)
        } else if str_eq(s, "high") {
            Ok(Priority::High)
        } else if str_eq(s, "required") {
            Ok(Priority::Required)
        } else {
            Err(String::from_str("invalid priority"))
        }
    }
}

/// Notification configuration of one task, in the shape the storage
/// layer keeps it.
#[derive(Clone, Debug, PartialEq)]
pub struct TaskNotificationSettings {
    /// `"none"`, `"due_date_based"` or `"recurring"`.
    pub notification_type: String,
    /// How many days before the due instant the reminder window opens.
    pub days_before: Option<i32>,
    /// Wall-clock target time in `HH:MM` form.
    pub notification_time: Option<String>,
    /// Weekdays of a recurring reminder, 0 = Sunday through 6 = Saturday.
    pub days_of_week: Option<Vec<i32>>,
    /// Escalation level, 1 through 3.
    pub level: i32,
}

impl Default for TaskNotificationSettings {
    /// A task starts with notifications off at the lowest level.
    fn default() -> (r: TaskNotificationSettings)
        ensures
            r.notification_type@ == "none"@,
            r.days_before is None,
            r.notification_time is None,
            r.days_of_week is None,
            r.level == 1,
    {
        TaskNotificationSettings {
            notification_type: String::from_str("none"),
            days_before: None,
            notification_time: None,
            days_of_week: None,
            level: 1,
        }
    }
}

/// A reminder the evaluator has decided to fire: a value handed to the
/// dispatcher, never persisted.
#[derive(Clone, Debug, PartialEq)]
pub struct TaskNotification {
    pub task_id: String,
    pub title: String,
    /// Escalation level the reminder fires at.
    pub level: i32,
    /// For a due-date reminder, whole days between the evaluation day
    /// and the target day.
    pub days_until_due: Option<i64>,
    /// `"due_date_based"` or `"recurring"`.
    pub notification_type: String,
}

/// A task as the snapshot provider returns it: identifiers, stored
/// timestamps, and the embedded notification configuration.
#[derive(Clone, Debug, PartialEq)]
pub struct Task {
    pub id: String,
    pub title: String,
    pub description: Option<String>,
    pub status: String,
    pub priority: String,
    pub parent_id: Option<String>,
    pub due_date: Option<String>,
    pub completed_at: Option<String>,
    pub created_at: String,
    pub updated_at: String,
    pub progress: Option<i32>,
    /// `"none"`, `"due_date_based"` or `"recurring"`.
    pub notification_type: Option<String>,
    pub notification_days_before: Option<i32>,
    /// `HH:MM` wall-clock target.
    pub notification_time: Option<String>,
    /// JSON array of weekday numbers, e.g. `"[1,3,5]"`.
    pub notification_days_of_week: Option<String>,
    pub notification_level: Option<i32>,
}

/// Relies on `uuid::Uuid::new_v4` and its `Display`: a fresh random
/// identifier in the 36-character hyphenated form.
#[verifier::external_body]
pub(crate) fn new_uuid() -> (r: String)
    ensures
        r@.len() == 36,
{
    uuid::Uuid::new_v4().to_string()
}

/// Relies on `chrono::Utc::now` and `DateTime::to_rfc3339`: the current
/// instant rendered as an RFC 3339 timestamp.
#[verifier::external_body]
pub(crate) fn now_rfc3339() -> (r: String)
    ensures
        r@.len() >= 19,
{
    chrono::Utc::now().to_rfc3339()
}

impl Task {
    /// A fresh task: a new identifier, the given fields, progress zero,
    /// and notifications off at the lowest level.
    pub fn new(title: String, description: Option<String>, status: TaskStatus, priority: Priority)
        -> (t: Task)
        ensures
            t.id@.len() == 36,
            t.title == title,
            t.description == description,
            t.status@ == status.spec_str(),
            t.priority@ == priority.spec_str(),
            t.parent_id is None,
            t.due_date is None,
            t.completed_at is None,
            t.created_at == t.updated_at,
            t.progress == Some(0i32),
            t.notification_type matches Some(n) && n@ == "none"@,
            t.notification_days_before is None,
            t.notification_time is None,
            t.notification_days_of_week is None,
            t.notification_level == Some(1i32),
    {
        let now = now_rfc3339();
        Task {
            id: new_uuid(),
            title,
            description,
            status: String::from_str(status.as_str()),
            priority: String::from_str(priority.as_str()),
            parent_id: None,
            due_date: None,
            completed_at: None,
            created_at: now.clone(),
            updated_at: now,
            progress: Some(0),
            notification_type: Some(String::from_str("none")),
            notification_days_before: None,
            notification_time: None,
            notification_days_of_week: None,
            notification_level: Some(1),
        }
    }
}

/// Request shape for creating a task.
#[derive(Clone, Debug, PartialEq)]
pub struct CreateTaskRequest {
    pub title: String,
    pub description: Option<String>,
    pub status: TaskStatus,
    pub parent_id: Option<String>,
    /// Stored timestamp text of the due instant.
    pub due_date: Option<String>,
    pub notification_settings: Option<TaskNotificationSettings>,
}

/// Request shape for updating a task.
#[derive(Clone, Debug, PartialEq)]
pub struct UpdateTaskRequest {
    pub title: Option<String>,
    pub description: Option<String>,
    pub status: Option<TaskStatus>,
    pub parent_id: Option<String>,
    /// Stored timestamp text of the due instant.
    pub due_date: Option<String>,
    pub notification_settings: Option<TaskNotificationSettings>,
}

/// A label a task can carry; the engine stores and returns it
/// unchanged.
#[derive(Clone, Debug, PartialEq)]
pub struct Tag {
    pub id: String,
    pub name: String,
    pub color: String,
    pub created_at: String,
    pub updated_at: String,
}

impl Tag {
    /// A fresh tag with a new identifier and the given name and color.
    pub fn new(name: String, color: String) -> (t: Tag)
        ensures
            t.id@.len() == 36,
            t.name == name,
            t.color == color,
            t.created_at == t.updated_at,
    {
        let now = now_rfc3339();
        Tag { id: new_uuid(), name, color, created_at: now.clone(), updated_at: now }
    }
}

/// Request shape for creating a tag.
#[derive(Clone, Debug, PartialEq)]
pub struct CreateTagRequest {
    pub name: String,
    pub color: String,
}

/// Request shape for updating a tag.
#[derive(Clone, Debug, PartialEq)]
pub struct UpdateTagRequest {
    pub name: Option<String>,
    pub color: Option<String>,
}

/// Error payload handed to the surface that called the engine.
#[derive(Clone, Debug, PartialEq)]
pub struct ErrorResponse {
    pub error: String,
}

} // verus!
