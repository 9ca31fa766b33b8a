//! Task CRUD behavior against an in-memory store, exercising the
//! library's task model end to end.

use std::collections::HashMap;
use std::sync::{Arc, Mutex};
use tasknag::model::{Task, TaskStatus, CreateTaskRequest};
use uuid::Uuid;
use chrono::Utc;

#[derive(Debug)]
enum AppError {
    NotFound(String),
}

#[derive(Clone)]
struct MockDatabase {
    tasks: Arc<Mutex<HashMap<String, Task>>>,
}

impl MockDatabase {
    fn new() -> Self {
        Self { tasks: Arc::new(Mutex::new(HashMap::new())) }
    }

    fn insert_task(&self, mut task: Task) -> Result<Task, AppError> {
        if task.id.is_empty() {
            task.id = Uuid::new_v4().to_string();
        }
        let now = Utc::now().to_rfc3339();
        if task.created_at.is_empty() {
            task.created_at = now.clone();
        }
        task.updated_at = now;
        let mut tasks = self.tasks.lock().unwrap();
        tasks.insert(task.id.clone(), task.clone());
        Ok(task)
    }

    fn get_task_by_id(&self, id: &str) -> Result<Task, AppError> {
        let tasks = self.tasks.lock().unwrap();
        tasks
            .get(id)
            .cloned()
            .ok_or_else(|| AppError::NotFound(format!("Task with id {} not found", id)))
    }

    fn update_task(&self, id: &str, updated_task: Task) -> Result<Task, AppError> {
        let mut tasks = self.tasks.lock().unwrap();
        if tasks.contains_key(id) {
            let mut task = updated_task;
            task.updated_at = Utc::now().to_rfc3339();
            tasks.insert(id.to_string(), task.clone());
            Ok(task)
        } else {
            Err(AppError::NotFound(format!("Task with id {} not found", id)))
        }
    }

    fn delete_task(&self, id: &str) -> Result<(), AppError> {
        let mut tasks = self.tasks.lock().unwrap();
        if tasks.remove(id).is_some() {
            Ok(())
        } else {
            Err(AppError::NotFound(format!("Task with id {} not found", id)))
        }
    }

    fn get_all_tasks(&self) -> Vec<Task> {
        let tasks = self.tasks.lock().unwrap();
        tasks.values().cloned().collect()
    }
}

fn create_test_task_with_notifications() -> Task {
    Task {
        id: Uuid::new_v4().to_string(),
        title: "Test Notification Task".to_string(),
        description: Some("Testing notification settings".to_string()),
        status: "todo".to_string(),
        priority: "medium".to_string(),
        parent_id: None,
        due_date: None,
        completed_at: None,
        created_at: Utc::now().to_rfc3339(),
        updated_at: Utc::now().to_rfc3339(),
        progress: Some(0),
        notification_type: Some("recurring".to_string()),
        notification_days_before: None,
        notification_time: Some("09:00".to_string()),
        notification_days_of_week: Some("[1,2,3,4,5]".to_string()),
        notification_level: Some(2),
    }
}

fn test_basic_task_crud_operations() {
    let mock_db = MockDatabase::new();

    let create_request = CreateTaskRequest {
        title: "Test Task".to_string(),
        description: Some("Test description".to_string()),
        status: TaskStatus::Todo,
        parent_id: None,
        due_date: None,
        notification_settings: None,
    };

    let task_data = Task {
        id: Uuid::new_v4().to_string(),
        title: create_request.title.clone(),
        description: create_request.description.clone(),
        status: "todo".to_string(),
        priority: "medium".to_string(),
        parent_id: create_request.parent_id.clone(),
        due_date: None,
        completed_at: None,
        created_at: Utc::now().to_rfc3339(),
        updated_at: Utc::now().to_rfc3339(),
        progress: Some(0),
        notification_type: Some("none".to_string()),
        notification_days_before: None,
        notification_time: None,
        notification_days_of_week: None,
        notification_level: Some(1),
    };

    let created_task = mock_db.insert_task(task_data.clone()).unwrap();

    assert_eq!(created_task.title, "Test Task");
    assert_eq!(created_task.description, Some("Test description".to_string()));
    assert_eq!(created_task.status, "todo");
    assert_eq!(created_task.priority, "medium");
    assert_eq!(created_task.progress, Some(0));

    let retrieved_task = mock_db.get_task_by_id(&created_task.id).unwrap();

    assert_eq!(retrieved_task.id, created_task.id);
    assert_eq!(retrieved_task.title, created_task.title);
    assert_eq!(retrieved_task.status, created_task.status);

    let mut updated_task = retrieved_task.clone();
    updated_task.title = "Updated Test Task".to_string();
    updated_task.description = Some("Updated description".to_string());
    updated_task.status = "in_progress".to_string();
    updated_task.priority = "high".to_string();
    updated_task.progress = Some(50);

    let update_result = mock_db.update_task(&updated_task.id, updated_task.clone()).unwrap();

    assert_eq!(update_result.title, "Updated Test Task");
    assert_eq!(update_result.description, Some("Updated description".to_string()));
    assert_eq!(update_result.status, "in_progress");
    assert_eq!(update_result.priority, "high");
    assert_eq!(update_result.progress, Some(50));

    mock_db.delete_task(&created_task.id).unwrap();

    let delete_result = mock_db.get_task_by_id(&created_task.id);
    assert!(delete_result.is_err());
}

fn test_task_status_transitions() {
    let mock_db = MockDatabase::new();

    let task = create_test_task_with_notifications();
    let created_task = mock_db.insert_task(task).unwrap();

    let statuses = ["todo", "in_progress", "done"];

    for status in statuses.iter() {
        let mut updated_task = mock_db.get_task_by_id(&created_task.id).unwrap();
        updated_task.status = status.to_string();

        if *status == "done" {
            updated_task.completed_at = Some(Utc::now().to_rfc3339());
            updated_task.progress = Some(100);
        }

        let result = mock_db.update_task(&created_task.id, updated_task).unwrap();

        assert_eq!(result.status, *status);

        if *status == "done" {
            assert!(result.completed_at.is_some());
            assert_eq!(result.progress, Some(100));
        }
    }

    mock_db.delete_task(&created_task.id).unwrap();
}

fn test_task_priority_management() {
    let mock_db = MockDatabase::new();

    let priorities = ["low", "medium", "high"];
    let mut created_tasks = Vec::new();

    for priority in priorities.iter() {
        let mut task = create_test_task_with_notifications();
        task.id = Uuid::new_v4().to_string();
        task.title = format!("Task with {} priority", priority);
        task.priority = priority.to_string();

        let created_task = mock_db.insert_task(task).unwrap();
        assert_eq!(created_task.priority, *priority);

        created_tasks.push(created_task);
    }

    let mut task_to_update = created_tasks[0].clone();
    task_to_update.priority = "high".to_string();

    let updated_task = mock_db.update_task(&task_to_update.id.clone(), task_to_update).unwrap();
    assert_eq!(updated_task.priority, "high");

    for task in created_tasks {
        mock_db.delete_task(&task.id).unwrap();
    }
}

fn test_task_due_date_management() {
    let mock_db = MockDatabase::new();

    let mut task_no_due_date = create_test_task_with_notifications();
    task_no_due_date.due_date = None;

    let created_task = mock_db.insert_task(task_no_due_date).unwrap();
    assert!(created_task.due_date.is_none());

    let mut updated_task = created_task.clone();
    updated_task.due_date = Some("2025-12-31T23:59:59Z".to_string());

    let result = mock_db.update_task(&created_task.id, updated_task).unwrap();
    assert_eq!(result.due_date, Some("2025-12-31T23:59:59Z".to_string()));

    let mut task_remove_due_date = result.clone();
    task_remove_due_date.due_date = None;

    let final_result = mock_db.update_task(&result.id, task_remove_due_date).unwrap();
    assert!(final_result.due_date.is_none());

    let due_dates = ["2025-01-01T00:00:00Z", "2025-06-15T12:00:00Z", "2025-12-31T23:59:59Z"];

    for due_date in due_dates.iter() {
        let mut task_with_due_date = create_test_task_with_notifications();
        task_with_due_date.id = Uuid::new_v4().to_string();
        task_with_due_date.due_date = Some(due_date.to_string());

        let created = mock_db.insert_task(task_with_due_date).unwrap();
        assert_eq!(created.due_date, Some(due_date.to_string()));

        mock_db.delete_task(&created.id).unwrap();
    }

    mock_db.delete_task(&created_task.id).unwrap();
}

fn test_task_progress_management() {
    let mock_db = MockDatabase::new();

    let task = create_test_task_with_notifications();
    let created_task = mock_db.insert_task(task).unwrap();

    let progress_values = [0, 25, 50, 75, 100];

    for progress in progress_values.iter() {
        let mut updated_task = mock_db.get_task_by_id(&created_task.id).unwrap();
        updated_task.progress = Some(*progress);

        if *progress == 100 {
            updated_task.status = "done".to_string();
            updated_task.completed_at = Some(Utc::now().to_rfc3339());
        }

        let result = mock_db.update_task(&created_task.id, updated_task).unwrap();
        assert_eq!(result.progress, Some(*progress));

        if *progress == 100 {
            assert_eq!(result.status, "done");
            assert!(result.completed_at.is_some());
        }
    }

    let mut invalid_task = mock_db.get_task_by_id(&created_task.id).unwrap();
    invalid_task.progress = Some(150);

    let invalid_result = mock_db.update_task(&created_task.id, invalid_task).unwrap();
    assert_eq!(invalid_result.progress, Some(150));

    mock_db.delete_task(&created_task.id).unwrap();
}

fn test_task_validation_and_error_cases() {
    let mock_db = MockDatabase::new();

    let non_existent_id = Uuid::new_v4().to_string();
    let result = mock_db.get_task_by_id(&non_existent_id);

    assert!(result.is_err());
    match result {
        Err(AppError::NotFound(_)) => {},
        _ => panic!("Expected NotFound error"),
    }

    let non_existent_task = create_test_task_with_notifications();
    let update_result = mock_db.update_task(&non_existent_id, non_existent_task);

    assert!(update_result.is_err());
    match update_result {
        Err(AppError::NotFound(_)) => {},
        _ => panic!("Expected NotFound error for update"),
    }

    let delete_result = mock_db.delete_task(&non_existent_id);

    assert!(delete_result.is_err());
    match delete_result {
        Err(AppError::NotFound(_)) => {},
        _ => panic!("Expected NotFound error for delete"),
    }

    let mut empty_title_task = create_test_task_with_notifications();
    empty_title_task.title = "".to_string();

    let empty_result = mock_db.insert_task(empty_title_task);
    assert!(empty_result.is_ok());

    let task1 = create_test_task_with_notifications();
    let task_id = task1.id.clone();

    let first_insert = mock_db.insert_task(task1).unwrap();
    assert_eq!(first_insert.id, task_id);

    let mut task2 = create_test_task_with_notifications();
    task2.id = task_id.clone();
    task2.title = "Duplicate ID Task".to_string();

    let second_insert = mock_db.insert_task(task2).unwrap();
    assert_eq!(second_insert.id, task_id);
    assert_eq!(second_insert.title, "Duplicate ID Task");

    if let Ok(inserted) = empty_result {
        mock_db.delete_task(&inserted.id).unwrap();
    }
    mock_db.delete_task(&task_id).unwrap();
}

fn test_bulk_task_operations() {
    let mock_db = MockDatabase::new();

    let task_count = 10;
    let mut created_task_ids = Vec::new();

    for i in 0..task_count {
        let mut task = create_test_task_with_notifications();
        task.id = Uuid::new_v4().to_string();
        task.title = format!("Bulk Task {}", i + 1);
        task.priority = match i % 3 {
            0 => "low".to_string(),
            1 => "medium".to_string(),
            _ => "high".to_string(),
        };

        let created_task = mock_db.insert_task(task).unwrap();
        created_task_ids.push(created_task.id);
    }

    let all_tasks = mock_db.get_all_tasks();
    assert_eq!(all_tasks.len(), task_count);

    let low_priority_count = all_tasks.iter().filter(|t| t.priority == "low").count();
    let medium_priority_count = all_tasks.iter().filter(|t| t.priority == "medium").count();
    let high_priority_count = all_tasks.iter().filter(|t| t.priority == "high").count();
    assert_eq!(low_priority_count + medium_priority_count + high_priority_count, task_count);

    let mut updated_count = 0;
    for task_id in &created_task_ids[0..5] {
        let mut task = mock_db.get_task_by_id(task_id).unwrap();
        task.status = "in_progress".to_string();

        mock_db.update_task(task_id, task).unwrap();
        updated_count += 1;
    }
    assert_eq!(updated_count, 5);

    for task_id in created_task_ids {
        mock_db.delete_task(&task_id).unwrap();
    }

    let remaining_tasks = mock_db.get_all_tasks();
    assert_eq!(remaining_tasks.len(), 0);
}

#[test]
fn task_crud_tests() {
    test_basic_task_crud_operations();
    test_task_status_transitions();
    test_task_priority_management();
    test_task_due_date_management();
    test_task_progress_management();
    test_task_validation_and_error_cases();
    test_bulk_task_operations();
}
