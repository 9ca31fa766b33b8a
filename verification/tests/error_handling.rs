//! Error handling of the task store fixture: missing tasks, permissive
//! validation at the mock layer, last-write-wins behavior, and
//! recovery after error scenarios.

use std::collections::HashMap;
use std::sync::{Arc, Mutex};
use tasknag::model::Task;
use uuid::Uuid;
use chrono::Utc;

#[derive(Debug)]
enum AppError {
    NotFound(String),
}

#[derive(Clone)]
struct MockDatabase {
    tasks: Arc<Mutex<HashMap<String, Task>>>,
}

impl MockDatabase {
    fn new() -> Self {
        Self { tasks: Arc::new(Mutex::new(HashMap::new())) }
    }

    fn insert_task(&self, mut task: Task) -> Result<Task, AppError> {
        if task.id.is_empty() {
            task.id = Uuid::new_v4().to_string();
        }
        let now = Utc::now().to_rfc3339();
        if task.created_at.is_empty() {
            task.created_at = now.clone();
        }
        task.updated_at = now;
        let mut tasks = self.tasks.lock().unwrap();
        tasks.insert(task.id.clone(), task.clone());
        Ok(task)
    }

    fn get_task_by_id(&self, id: &str) -> Result<Task, AppError> {
        let tasks = self.tasks.lock().unwrap();
        tasks
            .get(id)
            .cloned()
            .ok_or_else(|| AppError::NotFound(format!("Task with id {} not found", id)))
    }

    fn update_task(&self, id: &str, updated_task: Task) -> Result<Task, AppError> {
        let mut tasks = self.tasks.lock().unwrap();
        if tasks.contains_key(id) {
            let mut task = updated_task;
            task.updated_at = Utc::now().to_rfc3339();
            tasks.insert(id.to_string(), task.clone());
            Ok(task)
        } else {
            Err(AppError::NotFound(format!("Task with id {} not found", id)))
        }
    }

    fn delete_task(&self, id: &str) -> Result<(), AppError> {
        let mut tasks = self.tasks.lock().unwrap();
        if tasks.remove(id).is_some() {
            Ok(())
        } else {
            Err(AppError::NotFound(format!("Task with id {} not found", id)))
        }
    }

    fn get_all_tasks(&self) -> Vec<Task> {
        let tasks = self.tasks.lock().unwrap();
        tasks.values().cloned().collect()
    }

    fn clear(&self) {
        let mut tasks = self.tasks.lock().unwrap();
        tasks.clear();
    }
}

fn create_test_task_with_notifications() -> Task {
    Task {
        id: Uuid::new_v4().to_string(),
        title: "Test Notification Task".to_string(),
        description: Some("Testing notification settings".to_string()),
        status: "todo".to_string(),
        priority: "medium".to_string(),
        parent_id: None,
        due_date: None,
        completed_at: None,
        created_at: Utc::now().to_rfc3339(),
        updated_at: Utc::now().to_rfc3339(),
        progress: Some(0),
        notification_type: Some("recurring".to_string()),
        notification_days_before: None,
        notification_time: Some("09:00".to_string()),
        notification_days_of_week: Some("[1,2,3,4,5]".to_string()),
        notification_level: Some(2),
    }
}

fn test_basic_error_handling() {
    let mock_db = MockDatabase::new();

    let non_existent_id = Uuid::new_v4().to_string();
    let result = mock_db.get_task_by_id(&non_existent_id);

    match result {
        Err(AppError::NotFound(msg)) => {
            assert!(msg.contains(&non_existent_id));
        },
        _ => panic!("Expected NotFound error"),
    }

    let fake_task = create_test_task_with_notifications();
    let update_result = mock_db.update_task(&non_existent_id, fake_task);

    match update_result {
        Err(AppError::NotFound(msg)) => {
            assert!(msg.contains(&non_existent_id));
        },
        _ => panic!("Expected NotFound error for update"),
    }

    let delete_result = mock_db.delete_task(&non_existent_id);

    match delete_result {
        Err(AppError::NotFound(msg)) => {
            assert!(msg.contains(&non_existent_id));
        },
        _ => panic!("Expected NotFound error for delete"),
    }

    let empty_id = "";
    let empty_id_result = mock_db.get_task_by_id(empty_id);

    match empty_id_result {
        Err(AppError::NotFound(_)) => {},
        _ => panic!("Expected NotFound error for empty ID"),
    }
}

fn test_data_validation_errors() {
    // The mock store is permissive; these document what a real storage
    // layer should validate, while the engine itself skips malformed
    // configurations at evaluation time.
    let invalid_statuses = ["invalid", "DONE", "InProgress", ""];
    for status in invalid_statuses.iter() {
        let mut task = create_test_task_with_notifications();
        task.id = Uuid::new_v4().to_string();
        task.status = status.to_string();
    }

    let invalid_levels = [0, 4, 5, -1, 100];
    for level in invalid_levels.iter() {
        let mut task = create_test_task_with_notifications();
        task.id = Uuid::new_v4().to_string();
        task.notification_level = Some(*level);
    }

    let invalid_dates = [
        "2025-13-01T00:00:00Z",
        "2025-02-30T00:00:00Z",
        "not-a-date",
        "2025/01/01",
        "",
    ];
    for date in invalid_dates.iter() {
        let mut task = create_test_task_with_notifications();
        task.id = Uuid::new_v4().to_string();
        task.due_date = Some(date.to_string());
    }

    let invalid_times = ["25:00", "12:60", "12", "12:30:45", "noon", ""];
    for time in invalid_times.iter() {
        let mut task = create_test_task_with_notifications();
        task.id = Uuid::new_v4().to_string();
        task.notification_time = Some(time.to_string());
    }

    let invalid_days_of_week = ["[8]", "[-1]", "[1,2,8]", "not-json", "[1,2,3,4,5,6,7,8]", "[]"];
    for days in invalid_days_of_week.iter() {
        let mut task = create_test_task_with_notifications();
        task.id = Uuid::new_v4().to_string();
        task.notification_days_of_week = Some(days.to_string());
    }

    let invalid_progress = [-1, 101, 150, -50];
    for progress in invalid_progress.iter() {
        let mut task = create_test_task_with_notifications();
        task.id = Uuid::new_v4().to_string();
        task.progress = Some(*progress);
    }
}

fn test_business_logic_errors() {
    let mock_db = MockDatabase::new();

    let mut completed_task = create_test_task_with_notifications();
    completed_task.status = "done".to_string();
    completed_task.completed_at = Some(Utc::now().to_rfc3339());
    completed_task.progress = Some(100);

    let created_task = mock_db.insert_task(completed_task).unwrap();

    let mut modified_task = created_task.clone();
    modified_task.due_date = Some("2025-12-31T23:59:59Z".to_string());
    modified_task.status = "todo".to_string();

    let modify_result = mock_db.update_task(&created_task.id, modified_task);
    assert!(modify_result.is_ok());

    let mut past_due_task = create_test_task_with_notifications();
    past_due_task.id = Uuid::new_v4().to_string();
    past_due_task.due_date = Some("2020-01-01T00:00:00Z".to_string());

    let past_due_result = mock_db.insert_task(past_due_task);
    assert!(past_due_result.is_ok());

    let mut parent = create_test_task_with_notifications();
    parent.title = "Parent Task".to_string();

    let created_parent = mock_db.insert_task(parent).unwrap();

    let mut child = create_test_task_with_notifications();
    child.id = Uuid::new_v4().to_string();
    child.title = "Child Task".to_string();
    child.parent_id = Some(created_parent.id.clone());

    let created_child = mock_db.insert_task(child).unwrap();

    let mut circular_parent = created_parent.clone();
    circular_parent.parent_id = Some(created_child.id.clone());

    let circular_result = mock_db.update_task(&created_parent.id, circular_parent);
    assert!(circular_result.is_ok());

    let mut contradictory_task = create_test_task_with_notifications();
    contradictory_task.id = Uuid::new_v4().to_string();
    contradictory_task.notification_type = Some("due_date_based".to_string());
    contradictory_task.due_date = None;

    let contradictory_result = mock_db.insert_task(contradictory_task);
    assert!(contradictory_result.is_ok());

    let mut self_parent_task = create_test_task_with_notifications();
    self_parent_task.id = Uuid::new_v4().to_string();

    let created_self_task = mock_db.insert_task(self_parent_task.clone()).unwrap();

    let mut updated_self_task = created_self_task.clone();
    updated_self_task.parent_id = Some(created_self_task.id.clone());

    let self_parent_result = mock_db.update_task(&created_self_task.id, updated_self_task);
    assert!(self_parent_result.is_ok());

    mock_db.delete_task(&created_task.id).unwrap();
    if let Ok(past_task) = past_due_result {
        mock_db.delete_task(&past_task.id).unwrap();
    }
    mock_db.delete_task(&created_child.id).unwrap();
    mock_db.delete_task(&created_parent.id).unwrap();
    if let Ok(contra_task) = contradictory_result {
        mock_db.delete_task(&contra_task.id).unwrap();
    }
    mock_db.delete_task(&created_self_task.id).unwrap();
}

fn test_concurrency_errors() {
    let mock_db = MockDatabase::new();

    let task = create_test_task_with_notifications();
    let created_task = mock_db.insert_task(task).unwrap();

    let mut task_update_1 = created_task.clone();
    task_update_1.title = "Updated by User 1".to_string();

    let mut task_update_2 = created_task.clone();
    task_update_2.title = "Updated by User 2".to_string();
    task_update_2.status = "in_progress".to_string();

    let result_1 = mock_db.update_task(&created_task.id, task_update_1);
    assert!(result_1.is_ok());

    let result_2 = mock_db.update_task(&created_task.id, task_update_2);
    assert!(result_2.is_ok());

    let final_task = mock_db.get_task_by_id(&created_task.id).unwrap();
    assert_eq!(final_task.title, "Updated by User 2");

    let duplicate_id = Uuid::new_v4().to_string();

    let mut task_1 = create_test_task_with_notifications();
    task_1.id = duplicate_id.clone();
    task_1.title = "First Task".to_string();

    let mut task_2 = create_test_task_with_notifications();
    task_2.id = duplicate_id.clone();
    task_2.title = "Second Task".to_string();

    let result_1 = mock_db.insert_task(task_1);
    let result_2 = mock_db.insert_task(task_2);

    assert!(result_1.is_ok());
    assert!(result_2.is_ok());

    let final_duplicate = mock_db.get_task_by_id(&duplicate_id).unwrap();
    assert_eq!(final_duplicate.title, "Second Task");

    let task_to_delete = create_test_task_with_notifications();
    let created_delete_task = mock_db.insert_task(task_to_delete).unwrap();

    mock_db.delete_task(&created_delete_task.id).unwrap();

    let access_deleted = mock_db.get_task_by_id(&created_delete_task.id);
    match access_deleted {
        Err(AppError::NotFound(_)) => {},
        _ => panic!("Expected NotFound for deleted task"),
    }

    let update_deleted = mock_db.update_task(&created_delete_task.id, created_delete_task.clone());
    match update_deleted {
        Err(AppError::NotFound(_)) => {},
        _ => panic!("Expected NotFound for updating deleted task"),
    }

    mock_db.delete_task(&created_task.id).unwrap();
    mock_db.delete_task(&duplicate_id).unwrap();
}

fn test_resource_errors() {
    let mock_db = MockDatabase::new();
    let large_task_count = 1000;

    let mut created_ids = Vec::new();

    for i in 0..large_task_count {
        let mut task = create_test_task_with_notifications();
        task.id = Uuid::new_v4().to_string();
        task.title = format!("Memory Test Task {}", i);
        task.description = Some("Very long description ".repeat(100));

        match mock_db.insert_task(task.clone()) {
            Ok(created) => created_ids.push(created.id),
            Err(_) => break,
        }
    }

    assert_eq!(created_ids.len(), large_task_count);

    let all_tasks = mock_db.get_all_tasks();
    assert!(all_tasks.len() >= created_ids.len());

    for task_id in created_ids {
        mock_db.delete_task(&task_id).unwrap();
    }

    let mut huge_task = create_test_task_with_notifications();
    huge_task.id = Uuid::new_v4().to_string();
    huge_task.title = "A".repeat(10000);
    huge_task.description = Some("B".repeat(100000));

    let huge_result = mock_db.insert_task(huge_task);
    match huge_result {
        Ok(created_huge) => {
            mock_db.delete_task(&created_huge.id).unwrap();
        },
        Err(_) => panic!("Huge task creation failed"),
    }

    let invalid_uuids = [
        "not-a-uuid",
        "12345678-1234-1234-1234-12345678901",
        "12345678-1234-1234-1234-1234567890123",
        "xxxxxxxx-xxxx-xxxx-xxxx-xxxxxxxxxxxx",
        "",
    ];

    for invalid_uuid in invalid_uuids.iter() {
        let get_result = mock_db.get_task_by_id(invalid_uuid);
        match get_result {
            Err(AppError::NotFound(_)) => {},
            _ => panic!("Invalid UUID not rejected"),
        }
    }
}

fn test_error_recovery() {
    let mock_db = MockDatabase::new();

    let mut successful_task = create_test_task_with_notifications();
    successful_task.title = "Successful Task".to_string();

    let success_result = mock_db.insert_task(successful_task);
    assert!(success_result.is_ok());

    let all_tasks_after_errors = mock_db.get_all_tasks();
    let valid_tasks = all_tasks_after_errors.iter().filter(|t| !t.title.is_empty()).count();
    assert!(valid_tasks >= 1);

    for task in &all_tasks_after_errors {
        assert!(!task.id.is_empty(), "Task ID should not be empty");
        assert!(!task.created_at.is_empty(), "Created timestamp should not be empty");
        assert!(!task.updated_at.is_empty(), "Updated timestamp should not be empty");
    }

    mock_db.clear();
    let tasks_after_clear = mock_db.get_all_tasks();
    assert_eq!(tasks_after_clear.len(), 0);

    let recovery_task = create_test_task_with_notifications();
    let recovery_result = mock_db.insert_task(recovery_task);
    assert!(recovery_result.is_ok());

    let final_tasks = mock_db.get_all_tasks();
    assert_eq!(final_tasks.len(), 1);
}

#[test]
fn error_handling_tests() {
    test_basic_error_handling();
    test_data_validation_errors();
    test_business_logic_errors();
    test_concurrency_errors();
    test_resource_errors();
    test_error_recovery();
}
