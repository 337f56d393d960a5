//! The log-collection engine: watchers, the manager, scrollback and
//! toasts, driven as a consumer would drive them.

use dprs::log_view::{LogLevel, LogView};
use dprs::toast::{Toast, ToastManager};
use dprs::watcher::{DockerLogManager, DockerLogWatcher, WatcherError, DEFAULT_MAX_LOGS};

#[test]
fn test_docker_log_watcher_new() {
    let watcher = DockerLogWatcher::new("test-container".to_string(), 100);
    assert_eq!(watcher.container_name(), "test-container");
    assert_eq!(watcher.get_logs().len(), 0);
}

#[test]
fn test_docker_log_manager_new() {
    let manager = DockerLogManager::new();
    assert_eq!(manager.watcher_count(), 0);
}

#[test]
fn test_docker_log_manager_default() {
    let manager = DockerLogManager::default();
    assert_eq!(manager.watcher_count(), 0);
}

#[test]
fn dplw_test_log_manager_creation() {
    let log_manager = DockerLogManager::new();
    assert_eq!(log_manager.watcher_count(), 0);
}

#[test]
fn main_loop_test_log_manager_creation() {
    let log_manager = DockerLogManager::new();
    assert_eq!(log_manager.watcher_count(), 0);
}

#[test]
fn watcher_streams_lines_in_order() {
    let mut watcher = DockerLogWatcher::new("web".to_string(), 1000);
    watcher.start(true).unwrap();
    watcher.append_stdout_line("hello".to_string());
    watcher.append_stdout_line("world".to_string());
    assert_eq!(watcher.get_logs(), vec!["hello".to_string(), "world".to_string()]);
}

#[test]
fn watcher_evicts_oldest_at_capacity() {
    let mut watcher = DockerLogWatcher::new("web".to_string(), 2);
    watcher.start(true).unwrap();
    watcher.append_stdout_line("a".to_string());
    watcher.append_stdout_line("b".to_string());
    watcher.append_stdout_line("c".to_string());
    assert_eq!(watcher.get_logs(), vec!["b".to_string(), "c".to_string()]);
}

#[test]
fn watcher_keeps_last_lines_of_long_stream() {
    let mut watcher = DockerLogWatcher::new("chatty".to_string(), 3);
    watcher.start(true).unwrap();
    for i in 0..10 {
        watcher.append_stdout_line(format!("line {}", i));
    }
    assert_eq!(
        watcher.get_logs(),
        vec!["line 7".to_string(), "line 8".to_string(), "line 9".to_string()]
    );
}

#[test]
fn watcher_tags_stderr_lines() {
    let mut watcher = DockerLogWatcher::new("web".to_string(), 10);
    watcher.start(true).unwrap();
    watcher.append_stderr_line("boom".to_string());
    assert_eq!(watcher.get_logs(), vec!["ERROR: boom".to_string()]);
}

#[test]
fn stopped_watcher_ignores_lines() {
    let mut watcher = DockerLogWatcher::new("web".to_string(), 10);
    watcher.start(true).unwrap();
    watcher.append_stdout_line("before".to_string());
    watcher.stop();
    watcher.append_stdout_line("after".to_string());
    watcher.append_stderr_line("late".to_string());
    assert_eq!(watcher.get_logs(), vec!["before".to_string()]);
    assert!(!watcher.is_active());
}

#[test]
fn stop_is_idempotent() {
    let mut watcher = DockerLogWatcher::new("web".to_string(), 10);
    watcher.start(true).unwrap();
    watcher.append_stdout_line("kept".to_string());
    watcher.stop();
    watcher.stop();
    assert_eq!(watcher.get_logs(), vec!["kept".to_string()]);
    assert!(!watcher.is_active());
}

#[test]
fn failed_launch_leaves_watcher_inert() {
    let mut watcher = DockerLogWatcher::new("gone".to_string(), 10);
    let result = watcher.start(false);
    assert_eq!(result, Err(WatcherError::Launch));
    assert!(!watcher.is_active());
    assert_eq!(watcher.get_logs().len(), 0);
}

#[test]
fn discovery_of_nothing_leaves_manager_empty() {
    let mut manager = DockerLogManager::new();
    manager
        .start_watching_all_containers(Vec::new(), Vec::new())
        .unwrap();
    assert_eq!(manager.watcher_count(), 0);
    assert!(manager.get_watcher(0).is_none());
}

#[test]
fn refresh_replaces_watcher_set() {
    let mut manager = DockerLogManager::new();
    manager
        .refresh(
            vec!["a".to_string(), "b".to_string()],
            vec![true, true],
        )
        .unwrap();
    assert_eq!(manager.watcher_count(), 2);
    assert_eq!(manager.get_watcher(0).unwrap().container_name(), "a");
    assert_eq!(manager.get_watcher(1).unwrap().container_name(), "b");

    // Container "a" stopped and "c" started before the next refresh.
    manager
        .refresh(
            vec!["b".to_string(), "c".to_string()],
            vec![true, true],
        )
        .unwrap();
    assert_eq!(manager.watcher_count(), 2);
    assert_eq!(manager.get_watcher(0).unwrap().container_name(), "b");
    assert_eq!(manager.get_watcher(1).unwrap().container_name(), "c");
}

#[test]
fn discovery_skips_empty_identities() {
    let mut manager = DockerLogManager::new();
    manager
        .start_watching_all_containers(
            vec!["".to_string(), "real".to_string(), "".to_string()],
            vec![true, true, true],
        )
        .unwrap();
    assert_eq!(manager.watcher_count(), 1);
    assert_eq!(manager.get_watcher(0).unwrap().container_name(), "real");
}

#[test]
fn failed_launch_during_discovery_is_reported() {
    let mut manager = DockerLogManager::new();
    let result = manager.start_watching_all_containers(
        vec!["ok".to_string(), "broken".to_string(), "never".to_string()],
        vec![true, false, true],
    );
    assert_eq!(result, Err(WatcherError::Launch));
}

#[test]
fn watchers_created_with_default_capacity() {
    let mut manager = DockerLogManager::new();
    manager
        .start_watching_container("web".to_string(), true)
        .unwrap();
    let watcher = manager.get_watcher(0).unwrap();
    assert_eq!(watcher.max_logs(), DEFAULT_MAX_LOGS);
    assert!(watcher.is_active());
}

#[test]
fn lines_reach_watchers_by_id_and_stale_ids_do_nothing() {
    let mut manager = DockerLogManager::new();
    manager
        .start_watching_all_containers(
            vec!["a".to_string(), "b".to_string()],
            vec![true, true],
        )
        .unwrap();
    let id_a = manager.get_watcher(0).unwrap().watcher_id();
    let id_b = manager.get_watcher(1).unwrap().watcher_id();
    manager.append_stdout_by_id(id_a, "for a".to_string());
    manager.append_stderr_by_id(id_b, "for b".to_string());
    assert_eq!(manager.get_watcher(0).unwrap().get_logs(), vec!["for a".to_string()]);
    assert_eq!(
        manager.get_watcher(1).unwrap().get_logs(),
        vec!["ERROR: for b".to_string()]
    );

    // After a refresh the old ids are gone: a worker still holding one
    // cannot touch the new watchers.
    manager
        .refresh(vec!["c".to_string()], vec![true])
        .unwrap();
    manager.append_stdout_by_id(id_a, "stale".to_string());
    assert_eq!(manager.get_watcher(0).unwrap().get_logs().len(), 0);
}

#[test]
fn stop_all_drops_every_watcher() {
    let mut manager = DockerLogManager::new();
    let names: Vec<String> = (0..50).map(|i| format!("c{}", i)).collect();
    let launched = vec![true; 50];
    manager.start_watching_all_containers(names, launched).unwrap();
    assert_eq!(manager.watcher_count(), 50);
    manager.stop_all();
    assert_eq!(manager.watcher_count(), 0);
}

#[test]
fn stop_all_on_empty_manager_is_safe() {
    let mut manager = DockerLogManager::new();
    manager.stop_all();
    assert_eq!(manager.watcher_count(), 0);
}

#[test]
fn test_log_view_scrolling() {
    let mut log_view = LogView::new(10);

    for i in 0..20 {
        log_view.add_log(format!("Log line {}", i), LogLevel::Info);
    }

    log_view.scroll_to_top();
    assert_eq!(log_view.get_scroll_position(), 0);

    log_view.scroll_up();
    log_view.scroll_up();
    assert_eq!(log_view.get_scroll_position(), 0);

    log_view.scroll_down();
    assert_eq!(log_view.get_scroll_position(), 1);

    log_view.scroll_to_bottom();
    assert!(log_view.get_scroll_position() > 0);
    log_view.scroll_to_top();
    assert_eq!(log_view.get_scroll_position(), 0);
}

#[test]
fn dplw_test_log_view_scrolling() {
    let mut log_view = LogView::new(10);
    for i in 0..20 {
        log_view.add_log(format!("Log line {}", i), LogLevel::Info);
    }
    log_view.scroll_to_top();
    assert_eq!(log_view.get_scroll_position(), 0);
    log_view.scroll_up();
    log_view.scroll_up();
    assert_eq!(log_view.get_scroll_position(), 0);
    log_view.scroll_down();
    assert_eq!(log_view.get_scroll_position(), 1);
    log_view.scroll_to_bottom();
    assert!(log_view.get_scroll_position() > 0);
    log_view.scroll_to_top();
    assert_eq!(log_view.get_scroll_position(), 0);
}

#[test]
fn main_loop_test_log_view_scrolling() {
    let mut log_view = LogView::new(10);
    for i in 0..20 {
        log_view.add_log(format!("Log line {}", i), LogLevel::Info);
    }
    log_view.scroll_to_top();
    assert_eq!(log_view.get_scroll_position(), 0);
    log_view.scroll_up();
    log_view.scroll_up();
    assert_eq!(log_view.get_scroll_position(), 0);
    log_view.scroll_down();
    assert_eq!(log_view.get_scroll_position(), 1);
    log_view.scroll_to_bottom();
    assert!(log_view.get_scroll_position() > 0);
    log_view.scroll_to_top();
    assert_eq!(log_view.get_scroll_position(), 0);
}

#[test]
fn log_view_keeps_last_entries_and_follows() {
    let mut log_view = LogView::new(2);
    log_view.add_log("a".to_string(), LogLevel::Info);
    log_view.add_log("b".to_string(), LogLevel::Warning);
    log_view.add_log("c".to_string(), LogLevel::Error);
    assert_eq!(log_view.get_log_count(), 2);
    // Following: the scroll position sits on the newest entry.
    assert_eq!(log_view.get_scroll_position(), 1);
}

#[test]
fn log_view_paging_and_follow() {
    let mut log_view = LogView::new(100);
    for i in 0..30 {
        log_view.add_log(format!("{}", i), LogLevel::Debug);
    }
    log_view.page_up(10);
    assert_eq!(log_view.get_scroll_position(), 19);
    log_view.page_up(25);
    assert_eq!(log_view.get_scroll_position(), 0);
    log_view.page_down(10);
    assert_eq!(log_view.get_scroll_position(), 10);
    log_view.page_down(100);
    assert_eq!(log_view.get_scroll_position(), 29);
    log_view.enable_follow();
    assert_eq!(log_view.get_scroll_position(), 29);
    log_view.set_scroll_position(5);
    assert_eq!(log_view.get_scroll_position(), 5);
    log_view.set_scroll_position(500);
    assert_eq!(log_view.get_scroll_position(), 29);
}

#[test]
fn test_toast_creation() {
    let toast = Toast::new("Test message", 100);
    assert_eq!(toast.message, "Test message");
    assert_eq!(toast.duration_ms, 100);
}

#[test]
fn test_toast_not_expired() {
    let toast = Toast::new("Test message", 1000);
    assert!(!toast.is_expired());
}

#[test]
fn toast_expiry_rule_at_explicit_times() {
    let toast = Toast {
        message: "t".to_string(),
        duration_ms: 100,
        created_at_ms: 1_000,
    };
    assert!(!toast.is_expired_at(1_000));
    assert!(!toast.is_expired_at(1_100));
    assert!(toast.is_expired_at(1_101));
    // A clock before the creation time counts as no time passed.
    assert!(!toast.is_expired_at(900));
}

#[test]
fn test_toast_manager_show() {
    let mut manager = ToastManager::new();
    assert!(manager.get_toast().is_none());

    manager.show("New toast", 100);
    let toast = manager.get_toast().unwrap();
    assert_eq!(toast.message, "New toast");
}

#[test]
fn test_toast_manager_clear() {
    let mut manager = ToastManager::new();
    manager.show("Test toast", 100);
    assert!(manager.get_toast().is_some());

    manager.clear();
    assert!(manager.get_toast().is_none());
}

#[test]
fn test_toast_manager_not_expired() {
    let mut manager = ToastManager::new();
    manager.show("Non-expiring toast", 100);

    manager.check_expired();
    assert!(manager.get_toast().is_some());
}

#[test]
fn test_toast_manager_default() {
    let manager = ToastManager::default();
    assert!(manager.get_toast().is_none());
}
