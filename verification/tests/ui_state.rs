//! Tab, mode, menu and configuration state.

use dprs::config::{
    Config, ContextMenuAction, ContextMenuConfig, ContextMenuMatcher, Rgb,
};
use dprs::context_menu::{check_enabled_condition, ContainerLabel, ContextMenuState};
use dprs::log_tabs::LogTabs;
use dprs::modes::{CommandState, KeyInput, Mode, SearchState, VisualSelection};
use dprs::state_machine::{Container, ContainerFilter};

fn container(name: &str, image: &str, status: &str) -> Container {
    Container {
        name: name.to_string(),
        image: image.to_string(),
        status: status.to_string(),
        ip_address: "10.0.0.2".to_string(),
        ports: "80:80".to_string(),
    }
}

#[test]
fn test_log_tabs_new() {
    let titles = vec!["container1".to_string(), "container2".to_string()];
    let tabs = LogTabs::new(titles.clone());

    assert_eq!(tabs.titles, titles);
    assert_eq!(tabs.index, 0);
}

#[test]
fn test_log_tabs_next() {
    let titles = vec![
        "container1".to_string(),
        "container2".to_string(),
        "container3".to_string(),
    ];
    let mut tabs = LogTabs::new(titles);

    assert_eq!(tabs.index, 0);

    tabs.next();
    assert_eq!(tabs.index, 1);

    tabs.next();
    assert_eq!(tabs.index, 2);

    tabs.next();
    assert_eq!(tabs.index, 0); // Should wrap around
}

#[test]
fn test_log_tabs_previous() {
    let titles = vec![
        "container1".to_string(),
        "container2".to_string(),
        "container3".to_string(),
    ];
    let mut tabs = LogTabs::new(titles);

    assert_eq!(tabs.index, 0);

    tabs.previous();
    assert_eq!(tabs.index, 2); // Should wrap to end

    tabs.previous();
    assert_eq!(tabs.index, 1);

    tabs.previous();
    assert_eq!(tabs.index, 0);
}

#[test]
fn test_set_index() {
    let titles = vec!["container1".to_string(), "container2".to_string()];
    let mut tabs = LogTabs::new(titles);

    assert_eq!(tabs.index, 0);

    tabs.set_index(1);
    assert_eq!(tabs.index, 1);

    // Test setting index out of bounds - should not change
    tabs.set_index(5);
    assert_eq!(tabs.index, 1);
}

#[test]
fn test_get_active_tab_name() {
    let titles = vec!["container1".to_string(), "container2".to_string()];
    let mut tabs = LogTabs::new(titles);

    assert_eq!(tabs.get_active_tab_name(), Some(&"container1".to_string()));

    tabs.next();
    assert_eq!(tabs.get_active_tab_name(), Some(&"container2".to_string()));

    // Test with empty titles
    let empty_tabs = LogTabs::new(vec![]);
    assert_eq!(empty_tabs.get_active_tab_name(), None);
}

#[test]
fn dplw_test_log_tabs_navigation() {
    let container_names = vec![
        "container1".to_string(),
        "container2".to_string(),
        "container3".to_string(),
    ];

    let mut log_tabs = LogTabs::new(container_names);

    assert_eq!(log_tabs.index, 0);

    log_tabs.next();
    assert_eq!(log_tabs.index, 1);

    log_tabs.previous();
    assert_eq!(log_tabs.index, 0);
}

#[test]
fn main_loop_test_log_tabs_navigation() {
    let container_names = vec![
        "container1".to_string(),
        "container2".to_string(),
        "container3".to_string(),
    ];

    let mut log_tabs = LogTabs::new(container_names);

    assert_eq!(log_tabs.index, 0);

    log_tabs.next();
    assert_eq!(log_tabs.index, 1);

    log_tabs.previous();
    assert_eq!(log_tabs.index, 0);
}

#[test]
fn mode_display_names() {
    assert_eq!(Mode::Normal.display_name(), "NORMAL");
    assert_eq!(Mode::Visual.display_name(), "VISUAL");
    assert_eq!(Mode::Command.display_name(), "COMMAND");
    assert_eq!(Mode::Search.display_name(), "SEARCH");
}

#[test]
fn container_filter_display_and_toggles() {
    assert_eq!(ContainerFilter::Running.display_name(), "RUNNING");
    assert_eq!(ContainerFilter::Recent.display_name(), "RECENT");
    assert_eq!(ContainerFilter::All.display_name(), "ALL");
    assert_eq!(ContainerFilter::Running.toggled_recent(), ContainerFilter::Recent);
    assert_eq!(ContainerFilter::All.toggled_recent(), ContainerFilter::Recent);
    assert_eq!(ContainerFilter::Recent.toggled_all(), ContainerFilter::All);
    assert_eq!(ContainerFilter::All.toggled_all(), ContainerFilter::Running);
}

#[test]
fn visual_selection_spans_anchor_and_cursor() {
    let mut selection = VisualSelection::new(3);
    assert!(selection.is_selected(3));
    assert!(!selection.is_selected(2));

    selection.extend_to(6);
    for i in 3..=6 {
        assert!(selection.is_selected(i));
    }
    assert!(!selection.is_selected(2));
    assert!(!selection.is_selected(7));

    // Extending backwards selects the span below the anchor.
    selection.extend_to(1);
    for i in 1..=3 {
        assert!(selection.is_selected(i));
    }
    assert!(!selection.is_selected(4));
}

#[test]
fn command_state_history_navigation() {
    let mut state = CommandState::new();
    state.add_to_history("first".to_string());
    state.add_to_history("second".to_string());
    state.add_to_history("second".to_string()); // duplicate: not recorded
    assert_eq!(state.history.len(), 2);

    state.navigate_history(true);
    assert_eq!(state.input, "second");
    state.navigate_history(true);
    assert_eq!(state.input, "first");
    state.navigate_history(true); // already at the oldest
    assert_eq!(state.input, "first");
    state.navigate_history(false);
    assert_eq!(state.input, "second");
    state.navigate_history(false); // past the newest: fresh line
    assert_eq!(state.input, "");
    assert!(state.history_index.is_none());
}

#[test]
fn command_state_editing_keys() {
    let mut state = CommandState::new();
    assert!(state.handle_key(KeyInput::Char('p'), false));
    assert!(state.handle_key(KeyInput::Char('s'), false));
    assert_eq!(state.input, "ps");
    assert_eq!(state.cursor_pos, 2);

    // A control-modified character is not consumed.
    assert!(!state.handle_key(KeyInput::Char('c'), true));
    assert_eq!(state.input, "ps");

    assert!(state.handle_key(KeyInput::Left, false));
    assert!(state.handle_key(KeyInput::Char('x'), false));
    assert_eq!(state.input, "pxs");

    assert!(state.handle_key(KeyInput::Backspace, false));
    assert_eq!(state.input, "ps");
    assert_eq!(state.cursor_pos, 1);

    assert!(state.handle_key(KeyInput::Delete, false));
    assert_eq!(state.input, "p");

    assert!(state.handle_key(KeyInput::Home, false));
    assert_eq!(state.cursor_pos, 0);
    assert!(state.handle_key(KeyInput::End, false));
    assert_eq!(state.cursor_pos, 1);

    assert!(!state.handle_key(KeyInput::Other, false));

    state.clear();
    assert_eq!(state.input, "");
    assert_eq!(state.cursor_pos, 0);
}

#[test]
fn search_state_match_stepping() {
    let mut search = SearchState::new();
    assert!(search.next_match().is_none());

    search.set_query("web".to_string(), true);
    search.update_matches(vec![2, 5, 9]);
    assert_eq!(search.current_match, Some(0));

    assert_eq!(search.next_match(), Some(5));
    assert_eq!(search.next_match(), Some(9));
    assert_eq!(search.next_match(), Some(2)); // wraps forward

    search.is_forward = false;
    assert_eq!(search.next_match(), Some(9)); // wraps backward from the first

    search.update_matches(vec![]);
    assert!(search.current_match.is_none());

    search.clear();
    assert_eq!(search.query, "");
    assert!(search.matches.is_empty());
}

#[test]
fn context_menu_navigation_wraps() {
    let mut menu = ContextMenuState::new();
    assert!(!menu.active);
    assert!(menu.get_selected_action().is_none());

    let config = Config {
        context_menu: ContextMenuConfig {
            actions: vec![
                ContextMenuAction {
                    label: "one".to_string(),
                    command: "echo one".to_string(),
                    matchers: vec![],
                    enabled_when: None,
                },
                ContextMenuAction {
                    label: "two".to_string(),
                    command: "echo two".to_string(),
                    matchers: vec![],
                    enabled_when: None,
                },
            ],
        },
        ..Config::default()
    };
    menu.activate(Some(container("web", "nginx", "Up 2 hours")), None, &config, &vec![]);
    assert!(menu.active);
    assert_eq!(menu.actions.len(), 2);

    menu.next();
    assert_eq!(menu.selected_index, 1);
    menu.next();
    assert_eq!(menu.selected_index, 0);
    menu.previous();
    assert_eq!(menu.selected_index, 1);

    menu.deactivate();
    assert!(!menu.active);
    assert_eq!(menu.actions.len(), 0);
}

#[test]
fn context_menu_filters_by_matchers_and_condition() {
    let config = Config {
        context_menu: ContextMenuConfig {
            actions: vec![
                ContextMenuAction {
                    label: "only web".to_string(),
                    command: "c1".to_string(),
                    matchers: vec![ContextMenuMatcher::NamePattern {
                        pattern: "^web".to_string(),
                    }],
                    enabled_when: None,
                },
                ContextMenuAction {
                    label: "only nginx images".to_string(),
                    command: "c2".to_string(),
                    matchers: vec![ContextMenuMatcher::ImagePattern {
                        pattern: "nginx".to_string(),
                    }],
                    enabled_when: None,
                },
                ContextMenuAction {
                    label: "running only".to_string(),
                    command: "c3".to_string(),
                    matchers: vec![],
                    enabled_when: Some("running".to_string()),
                },
                ContextMenuAction {
                    label: "stopped only".to_string(),
                    command: "c4".to_string(),
                    matchers: vec![],
                    enabled_when: Some("stopped".to_string()),
                },
                ContextMenuAction {
                    label: "labelled".to_string(),
                    command: "c5".to_string(),
                    matchers: vec![ContextMenuMatcher::LabelPattern {
                        label: "tier".to_string(),
                        value: Some("frontend".to_string()),
                    }],
                    enabled_when: None,
                },
                ContextMenuAction {
                    label: "projects".to_string(),
                    command: "c6".to_string(),
                    matchers: vec![ContextMenuMatcher::ComposeProject],
                    enabled_when: None,
                },
            ],
        },
        ..Config::default()
    };
    let labels = vec![ContainerLabel {
        key: "tier".to_string(),
        value: "frontend".to_string(),
    }];
    let mut menu = ContextMenuState::new();
    menu.activate(
        Some(container("web-1", "nginx:latest", "Up 2 hours")),
        None,
        &config,
        &labels,
    );
    let offered: Vec<&str> = menu.actions.iter().map(|a| a.label.as_str()).collect();
    assert_eq!(offered, vec!["only web", "only nginx images", "running only", "labelled"]);

    let mut menu = ContextMenuState::new();
    menu.activate(
        Some(container("db-1", "postgres", "Exited (0) 2 hours ago")),
        None,
        &config,
        &vec![],
    );
    let offered: Vec<&str> = menu.actions.iter().map(|a| a.label.as_str()).collect();
    assert_eq!(offered, vec!["stopped only"]);
}

#[test]
fn context_menu_substitutes_placeholders() {
    let config = Config {
        context_menu: ContextMenuConfig {
            actions: vec![ContextMenuAction {
                label: "shell".to_string(),
                command: "docker exec {name} ping {ip}".to_string(),
                matchers: vec![],
                enabled_when: None,
            }],
        },
        ..Config::default()
    };
    let mut menu = ContextMenuState::new();
    menu.activate(Some(container("web", "nginx", "Up")), None, &config, &vec![]);
    assert_eq!(
        menu.execute_selected_action(),
        Some("docker exec web ping 10.0.0.2".to_string())
    );
}

#[test]
fn enabled_condition_is_case_insensitive() {
    let up = container("w", "i", "Up 3 hours");
    let down = container("w", "i", "Exited (1)");
    assert!(check_enabled_condition("running", &up));
    assert!(!check_enabled_condition("running", &down));
    assert!(!check_enabled_condition("stopped", &up));
    assert!(check_enabled_condition("stopped", &down));
    assert!(check_enabled_condition("anything-else", &down));
}

#[test]
fn test_hex_to_color() {
    assert_eq!(Config::hex_to_color("#000000"), Some(Rgb { r: 0, g: 0, b: 0 }));
    assert_eq!(
        Config::hex_to_color("#FfFfFF"),
        Some(Rgb { r: 255, g: 255, b: 255 })
    );
    assert_eq!(Config::hex_to_color("#fF0000"), Some(Rgb { r: 255, g: 0, b: 0 }));
    assert_eq!(Config::hex_to_color("invalid"), None);
    assert_eq!(Config::hex_to_color("#12345"), None); // Too short
    assert_eq!(Config::hex_to_color("#1234567"), None); // Too long
}

#[test]
fn default_config_colors_resolve() {
    let config = Config::default();
    assert_eq!(
        config.get_color_rgb("background_main"),
        Some(Rgb { r: 0, g: 0, b: 0 })
    );
    assert_eq!(
        config.get_color_rgb("border_light"),
        Some(Rgb { r: 0x4A, g: 0x9E, b: 0xFF })
    );
    assert_eq!(config.get_color_rgb("unknown_color"), None);
}

#[test]
fn default_key_bindings_resolve() {
    let config = Config::default();
    assert_eq!(config.get_key_binding("normal", "j"), Some("SelectNext"));
    assert_eq!(config.get_key_binding("normal", "q"), Some("Quit"));
    assert_eq!(config.get_key_binding("visual", "Escape"), Some("EnterNormalMode"));
    assert_eq!(config.get_key_binding("command", "Enter"), Some("ExecuteCommand"));
    assert_eq!(config.get_key_binding("normal", "unbound-key"), None);
    assert_eq!(config.get_key_binding("no-such-mode", "j"), None);
    assert!(!config.should_auto_refresh());
    assert_eq!(config.auto_refresh_interval(), 0);
}

#[test]
fn empty_binding_unbinds_a_key() {
    let mut config = Config::default();
    config
        .keybindings
        .visual_mode
        .insert(0, ("q".to_string(), "".to_string()));
    assert_eq!(config.get_key_binding("visual", "q"), None);
}
