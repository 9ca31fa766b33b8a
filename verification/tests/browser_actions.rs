//! Browser-action model behavior: creation, the settings cap, the run
//! order, and enabled-action filtering.

use tasknag::browser::{BrowserAction, BrowserActionSettings};

#[test]
fn test_browser_action_creation() {
    let action = BrowserAction::new("Test Action".to_string(), "https://example.com".to_string(), 1);

    assert_eq!(action.label, "Test Action");
    assert_eq!(action.url, "https://example.com");
    assert_eq!(action.order, 1);
    assert!(action.enabled);
    assert!(!action.id.is_empty());
}

#[test]
fn test_browser_action_settings() {
    let mut settings = BrowserActionSettings::new(true);
    assert!(settings.enabled);
    assert!(settings.actions.is_empty());

    let action = BrowserAction::new("Test".to_string(), "https://test.com".to_string(), 1);

    settings.add_action(action);
    assert_eq!(settings.actions.len(), 1);
    assert_eq!(settings.get_enabled_actions().len(), 1);

    settings.enabled = false;
    assert_eq!(settings.get_enabled_actions().len(), 0);
}

#[test]
fn test_max_actions_limit() {
    let mut settings = BrowserActionSettings::new(true);

    for i in 1..=6 {
        let action = BrowserAction::new(
            format!("Action {}", i),
            format!("https://example{}.com", i),
            i,
        );
        settings.add_action(action);
    }

    assert_eq!(settings.actions.len(), 5);
}

#[test]
fn test_add_action_keeps_run_order() {
    let mut settings = BrowserActionSettings::new(true);
    settings.add_action(BrowserAction::new("c".to_string(), "https://c.com".to_string(), 3));
    settings.add_action(BrowserAction::new("a".to_string(), "https://a.com".to_string(), 1));
    settings.add_action(BrowserAction::new("b".to_string(), "https://b.com".to_string(), 2));

    let labels: Vec<&str> = settings.actions.iter().map(|a| a.label.as_str()).collect();
    assert_eq!(labels, vec!["a", "b", "c"]);
}

#[test]
fn test_add_action_ties_keep_insertion_order() {
    let mut settings = BrowserActionSettings::new(true);
    settings.add_action(BrowserAction::new("first".to_string(), "https://a.com".to_string(), 1));
    settings.add_action(BrowserAction::new("second".to_string(), "https://b.com".to_string(), 1));

    let labels: Vec<&str> = settings.actions.iter().map(|a| a.label.as_str()).collect();
    assert_eq!(labels, vec!["first", "second"]);
}

#[test]
fn test_remove_action() {
    let mut settings = BrowserActionSettings::new(true);
    let keep = BrowserAction::new("keep".to_string(), "https://a.com".to_string(), 1);
    let drop = BrowserAction::new("drop".to_string(), "https://b.com".to_string(), 2);
    let drop_id = drop.id.clone();
    settings.add_action(keep);
    settings.add_action(drop);

    settings.remove_action(&drop_id);
    assert_eq!(settings.actions.len(), 1);
    assert_eq!(settings.actions[0].label, "keep");

    settings.remove_action("no-such-id");
    assert_eq!(settings.actions.len(), 1);
}

#[test]
fn test_reorder_actions() {
    let mut settings = BrowserActionSettings::new(true);
    let a = BrowserAction::new("a".to_string(), "https://a.com".to_string(), 1);
    let b = BrowserAction::new("b".to_string(), "https://b.com".to_string(), 2);
    let c = BrowserAction::new("c".to_string(), "https://c.com".to_string(), 3);
    let a_id = a.id.clone();
    settings.add_action(a);
    settings.add_action(b);
    settings.add_action(c);

    settings.reorder_actions(&a_id, 5);
    let labels: Vec<&str> = settings.actions.iter().map(|x| x.label.as_str()).collect();
    assert_eq!(labels, vec!["b", "c", "a"]);
    assert_eq!(settings.actions[2].order, 5);

    // An unknown identifier leaves the set unchanged.
    let before = settings.actions.clone();
    settings.reorder_actions("no-such-id", 1);
    assert_eq!(settings.actions, before);
}

#[test]
fn test_get_enabled_actions_filters_disabled() {
    let mut settings = BrowserActionSettings::new(true);
    let mut off = BrowserAction::new("off".to_string(), "https://a.com".to_string(), 1);
    off.enabled = false;
    settings.add_action(off);
    settings.add_action(BrowserAction::new("on".to_string(), "https://b.com".to_string(), 2));

    let enabled = settings.get_enabled_actions();
    assert_eq!(enabled.len(), 1);
    assert_eq!(enabled[0].label, "on");
}
