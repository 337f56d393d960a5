//! The command line, container-spec resolution, address extraction, and
//! the compose grouping.

use dprs::commands::{
    combine_op_outcomes, not_found_message, op_failure_message, op_success_message,
    CommandExecutor, CommandPlan, CommandResult, OpOutcome,
};
use dprs::compose_view::{group_containers_by_project, ComposeEntry};
use dprs::ip::extract_first_ip;
use dprs::state_machine::{
    filter_containers, parse_container_line, search_containers, Container,
};
use dprs::text::{parse_usize, split_on_char, usize_to_string};

fn container(name: &str, image: &str) -> Container {
    Container {
        name: name.to_string(),
        image: image.to_string(),
        status: "Up".to_string(),
        ip_address: String::new(),
        ports: String::new(),
    }
}

fn fleet() -> Vec<Container> {
    vec![
        container("web-1", "nginx:latest"),
        container("web-2", "nginx:latest"),
        container("db", "postgres:16"),
    ]
}

#[test]
fn test_percentage_calculation_with_zero_total() {
    // Test that percentage calculation doesn't panic with zero total
    let total = 0;
    let idx = 0;

    let percentage = if total > 0 {
        (idx as f32 / total as f32) * 100.0
    } else {
        0.0
    };

    assert_eq!(percentage, 0.0);
}

#[test]
fn test_percentage_calculation_with_normal_values() {
    let total = 4;

    // Test first iteration
    let idx = 0;
    let percentage = if total > 0 {
        (idx as f32 / total as f32) * 100.0
    } else {
        0.0
    };
    assert_eq!(percentage, 0.0);

    // Test middle iteration
    let idx = 2;
    let percentage = if total > 0 {
        (idx as f32 / total as f32) * 100.0
    } else {
        0.0
    };
    assert_eq!(percentage, 50.0);

    // Test last iteration
    let idx = 3;
    let percentage = if total > 0 {
        (idx as f32 / total as f32) * 100.0
    } else {
        0.0
    };
    assert_eq!(percentage, 75.0);
}

#[test]
fn test_extract_first_ip_from_comma_separated() {
    // Test with comma-separated IPs
    assert_eq!(extract_first_ip("192.168.1.100, 172.17.0.2"), "192.168.1.100");
    assert_eq!(extract_first_ip("10.0.0.1, 10.0.0.2, 10.0.0.3"), "10.0.0.1");
}

#[test]
fn test_extract_first_ip_from_space_separated() {
    // Test with space-separated IPs
    assert_eq!(extract_first_ip("192.168.1.100 172.17.0.2"), "192.168.1.100");
}

#[test]
fn test_extract_first_ip_from_concatenated() {
    // Test with concatenated IPs (no separator)
    assert_eq!(extract_first_ip("192.168.1.100172.17.0.2"), "192.168.1.100");
}

#[test]
fn test_extract_first_ip_single() {
    // Test with single IP
    assert_eq!(extract_first_ip("192.168.1.100"), "192.168.1.100");
}

#[test]
fn test_extract_first_ip_with_whitespace() {
    // Test with leading/trailing whitespace
    assert_eq!(extract_first_ip("  192.168.1.100  "), "192.168.1.100");
    assert_eq!(extract_first_ip("  192.168.1.100, 172.17.0.2  "), "192.168.1.100");
}

#[test]
fn extract_first_ip_falls_back_to_trimmed_input() {
    assert_eq!(extract_first_ip("  no address here  "), "no address here");
    assert_eq!(extract_first_ip(""), "");
}

#[test]
fn executor_history_records_commands_once() {
    let mut executor = CommandExecutor::new();
    assert!(executor.get_history().is_empty());
    let containers = fleet();
    executor.plan("ps", &containers, None);
    executor.plan("  ps  ", &containers, None);
    executor.plan("quit", &containers, None);
    let history = executor.get_history();
    assert_eq!(history, &vec!["ps".to_string(), "quit".to_string()]);
}

#[test]
fn plan_quit_and_empty() {
    let mut executor = CommandExecutor::new();
    let containers = fleet();
    assert!(matches!(
        executor.plan("q", &containers, None),
        CommandPlan::Finished(CommandResult::Quit)
    ));
    assert!(matches!(
        executor.plan("quit", &containers, None),
        CommandPlan::Finished(CommandResult::Quit)
    ));
    match executor.plan("   ", &containers, None) {
        CommandPlan::Finished(CommandResult::Error(m)) => assert_eq!(m, "Empty command"),
        other => panic!("unexpected plan: {:?}", plan_kind(&other)),
    }
}

#[test]
fn plan_numeric_navigation() {
    let mut executor = CommandExecutor::new();
    let containers = fleet();
    match executor.plan("2", &containers, None) {
        CommandPlan::Finished(CommandResult::Navigation(i)) => assert_eq!(i, 1),
        other => panic!("unexpected plan: {:?}", plan_kind(&other)),
    }
    match executor.plan("$", &containers, None) {
        CommandPlan::Finished(CommandResult::Navigation(i)) => assert_eq!(i, 2),
        other => panic!("unexpected plan: {:?}", plan_kind(&other)),
    }
    match executor.plan("7", &containers, None) {
        CommandPlan::Finished(CommandResult::Error(m)) => {
            assert_eq!(m, "Invalid line number: 7")
        },
        other => panic!("unexpected plan: {:?}", plan_kind(&other)),
    }
    match executor.plan("$", &Vec::new(), None) {
        CommandPlan::Finished(CommandResult::Error(m)) => {
            assert_eq!(m, "No containers available")
        },
        other => panic!("unexpected plan: {:?}", plan_kind(&other)),
    }
}

fn plan_kind(plan: &CommandPlan) -> &'static str {
    match plan {
        CommandPlan::Finished(CommandResult::Success(_)) => "success",
        CommandPlan::Finished(CommandResult::Error(_)) => "error",
        CommandPlan::Finished(CommandResult::Navigation(_)) => "navigation",
        CommandPlan::Finished(CommandResult::Quit) => "quit",
        CommandPlan::Finished(CommandResult::ConfigReload(_)) => "config-reload",
        CommandPlan::ContainerOp { .. } => "container-op",
        CommandPlan::Logs { .. } => "logs",
        CommandPlan::Inspect { .. } => "inspect",
        CommandPlan::Refresh => "refresh",
        CommandPlan::Reload => "reload",
    }
}

#[test]
fn plan_dispatches_runtime_work() {
    let mut executor = CommandExecutor::new();
    let containers = fleet();
    assert!(matches!(executor.plan("ps", &containers, None), CommandPlan::Refresh));
    assert!(matches!(executor.plan("refresh", &containers, None), CommandPlan::Refresh));
    assert!(matches!(executor.plan("reload", &containers, None), CommandPlan::Reload));
    assert!(matches!(executor.plan("config", &containers, None), CommandPlan::Reload));
    match executor.plan("logs db", &containers, None) {
        CommandPlan::Logs { name } => assert_eq!(name, "db"),
        other => panic!("unexpected plan: {:?}", plan_kind(&other)),
    }
    match executor.plan("inspect", &containers, Some(1)) {
        CommandPlan::Inspect { name } => assert_eq!(name, "web-2"),
        other => panic!("unexpected plan: {:?}", plan_kind(&other)),
    }
    match executor.plan("logs", &containers, None) {
        CommandPlan::Finished(CommandResult::Error(m)) => {
            assert_eq!(m, "No container selected")
        },
        other => panic!("unexpected plan: {:?}", plan_kind(&other)),
    }
    match executor.plan("nonsense", &containers, None) {
        CommandPlan::Finished(CommandResult::Error(m)) => {
            assert_eq!(m, "Unknown command: nonsense")
        },
        other => panic!("unexpected plan: {:?}", plan_kind(&other)),
    }
}

#[test]
fn plan_container_operations() {
    let mut executor = CommandExecutor::new();
    let containers = fleet();
    match executor.plan("stop web-1 db", &containers, None) {
        CommandPlan::ContainerOp { operation, resolved } => {
            assert_eq!(operation, "stop");
            assert_eq!(resolved.len(), 2);
            assert_eq!(resolved[0].arg, "web-1");
            assert_eq!(resolved[0].names, vec!["web-1".to_string()]);
            assert_eq!(resolved[1].arg, "db");
            assert_eq!(resolved[1].names, vec!["db".to_string()]);
        },
        other => panic!("unexpected plan: {:?}", plan_kind(&other)),
    }
    // Without arguments the selected container is the target.
    match executor.plan("restart", &containers, Some(2)) {
        CommandPlan::ContainerOp { operation, resolved } => {
            assert_eq!(operation, "restart");
            assert_eq!(resolved.len(), 1);
            assert_eq!(resolved[0].names, vec!["db".to_string()]);
        },
        other => panic!("unexpected plan: {:?}", plan_kind(&other)),
    }
    match executor.plan("start", &containers, None) {
        CommandPlan::Finished(CommandResult::Error(m)) => {
            assert_eq!(m, "No container selected")
        },
        other => panic!("unexpected plan: {:?}", plan_kind(&other)),
    }
}

#[test]
fn plan_exec_builds_preview_message() {
    let mut executor = CommandExecutor::new();
    let containers = fleet();
    match executor.plan("exec db ls -la", &containers, None) {
        CommandPlan::Finished(CommandResult::Success(m)) => {
            assert_eq!(m, "Would execute: docker exec -it db ls -la")
        },
        other => panic!("unexpected plan: {:?}", plan_kind(&other)),
    }
    match executor.plan("exec db", &containers, None) {
        CommandPlan::Finished(CommandResult::Success(m)) => {
            assert_eq!(m, "Would execute: docker exec -it db /bin/bash")
        },
        other => panic!("unexpected plan: {:?}", plan_kind(&other)),
    }
    match executor.plan("exec", &containers, None) {
        CommandPlan::Finished(CommandResult::Error(m)) => {
            assert_eq!(m, "Usage: :exec <container> [command]")
        },
        other => panic!("unexpected plan: {:?}", plan_kind(&other)),
    }
}

#[test]
fn resolve_specs_by_name_wildcard_and_regex() {
    let executor = CommandExecutor::new();
    let containers = fleet();
    // Exact and prefix matches.
    assert_eq!(
        executor.resolve_container_spec("web-1", &containers),
        vec!["web-1".to_string()]
    );
    assert_eq!(
        executor.resolve_container_spec("web", &containers),
        vec!["web-1".to_string(), "web-2".to_string()]
    );
    // Wildcards match the whole name.
    assert_eq!(
        executor.resolve_container_spec("web-?", &containers),
        vec!["web-1".to_string(), "web-2".to_string()]
    );
    assert_eq!(
        executor.resolve_container_spec("*b*", &containers),
        vec!["web-1".to_string(), "web-2".to_string(), "db".to_string()]
    );
    // A /regex/ also matches the image.
    assert_eq!(
        executor.resolve_container_spec("/postgres/", &containers),
        vec!["db".to_string()]
    );
    assert_eq!(
        executor.resolve_container_spec("/^web-[0-9]$/", &containers),
        vec!["web-1".to_string(), "web-2".to_string()]
    );
    // A pattern the engine rejects falls back to exact/prefix matching.
    assert_eq!(executor.resolve_container_spec("/(/", &containers), Vec::<String>::new());
    assert_eq!(executor.resolve_container_spec("zzz", &containers), Vec::<String>::new());
}

#[test]
fn combine_outcomes_prefers_errors() {
    let all_good = vec![
        OpOutcome::Success("stop a".to_string()),
        OpOutcome::Success("stop b".to_string()),
    ];
    match combine_op_outcomes(&all_good) {
        CommandResult::Success(m) => assert_eq!(m, "stop a; stop b"),
        _ => panic!("expected success"),
    }
    let mixed = vec![
        OpOutcome::Success("stop a".to_string()),
        OpOutcome::Failure("Failed to stop b: gone".to_string()),
    ];
    match combine_op_outcomes(&mixed) {
        CommandResult::Error(m) => assert_eq!(m, "Failed to stop b: gone"),
        _ => panic!("expected error"),
    }
    match combine_op_outcomes(&Vec::new()) {
        CommandResult::Error(m) => assert_eq!(m, "No operations performed"),
        _ => panic!("expected error"),
    }
}

#[test]
fn operation_messages() {
    assert_eq!(op_success_message("stop", "web"), "stop web");
    assert_eq!(
        op_failure_message("stop", "web", "no such container"),
        "Failed to stop web: no such container"
    );
    assert_eq!(
        not_found_message("ghost"),
        "No containers found matching: ghost"
    );
}

#[test]
fn parse_and_print_numbers() {
    assert_eq!(parse_usize("0"), Some(0));
    assert_eq!(parse_usize("42"), Some(42));
    assert_eq!(parse_usize(""), None);
    assert_eq!(parse_usize("4x2"), None);
    assert_eq!(parse_usize("99999999999999999999999999"), None);
    assert_eq!(usize_to_string(0), "0");
    assert_eq!(usize_to_string(907), "907");
}

#[test]
fn compose_grouping_collects_and_sorts() {
    let entries = vec![
        ComposeEntry {
            container_name: "z-api".to_string(),
            working_dir: "/srv/zeta".to_string(),
            project_name: "zeta".to_string(),
        },
        ComposeEntry {
            container_name: "a-db".to_string(),
            working_dir: "/srv/alpha".to_string(),
            project_name: "alpha".to_string(),
        },
        ComposeEntry {
            container_name: "z-worker".to_string(),
            working_dir: "/srv/zeta".to_string(),
            project_name: "zeta".to_string(),
        },
        ComposeEntry {
            container_name: "stray".to_string(),
            working_dir: String::new(),
            project_name: String::new(),
        },
    ];
    let projects = group_containers_by_project(entries);
    assert_eq!(projects.len(), 2);
    assert_eq!(projects[0].project_name, "alpha");
    assert_eq!(projects[0].containers, vec!["a-db".to_string()]);
    assert_eq!(projects[0].container_count(), 1);
    assert_eq!(projects[1].project_name, "zeta");
    assert_eq!(
        projects[1].containers,
        vec!["z-api".to_string(), "z-worker".to_string()]
    );
}

#[test]
fn listing_lines_parse_into_containers() {
    let parsed = parse_container_line("web|nginx:latest|Up 2 hours|80:80").unwrap();
    assert_eq!(parsed.name, "web");
    assert_eq!(parsed.image, "nginx:latest");
    assert_eq!(parsed.status, "Up 2 hours");
    assert_eq!(parsed.ports, "80:80");
    assert_eq!(parsed.ip_address, "");

    // Empty fields are kept, short lines are rejected.
    let sparse = parse_container_line("a|b||").unwrap();
    assert_eq!(sparse.status, "");
    assert_eq!(sparse.ports, "");
    assert!(parse_container_line("a|b|c").is_none());
    assert!(parse_container_line("").is_none());
}

#[test]
fn field_splitting_keeps_empties() {
    assert_eq!(split_on_char("a|b|c", '|'), vec!["a", "b", "c"]);
    assert_eq!(split_on_char("a||c|", '|'), vec!["a", "", "c", ""]);
    assert_eq!(split_on_char("", '|'), vec![""]);
}

#[test]
fn filtering_is_case_insensitive() {
    let containers = fleet();
    assert_eq!(filter_containers("NGINX", &containers), vec![0, 1]);
    assert_eq!(filter_containers("web-2", &containers), vec![1]);
    assert_eq!(filter_containers("nothing", &containers), Vec::<usize>::new());
}

#[test]
fn searching_uses_regex_with_plain_fallback() {
    let containers = fleet();
    assert_eq!(search_containers("^web-[0-9]$", &containers), vec![0, 1]);
    assert_eq!(search_containers("postgres", &containers), vec![2]);
    // A query the engine rejects falls back to case-insensitive containment.
    assert_eq!(search_containers("WEB-1(", &containers), Vec::<usize>::new());
    assert_eq!(search_containers("(", &containers), Vec::<usize>::new());
}
