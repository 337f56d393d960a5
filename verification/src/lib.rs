//! Terminal dashboard for a local container runtime: the verified core.
//!
//! The heart of the crate is the concurrent log-collection engine: a
//! [`watcher::DockerLogWatcher`] tails one container's output into a bounded
//! ring buffer, and a [`watcher::DockerLogManager`] keeps one watcher per
//! running container.  Everything that decides or computes — buffer eviction,
//! lifecycle flags, tab and scroll state, command parsing, configuration
//! lookups — lives here with a contract; the subprocess, thread and terminal
//! plumbing that drives it stays outside the verified boundary.

pub mod clock;
pub mod commands;
pub mod compose_view;
pub mod config;
pub mod context_menu;
pub mod ip;
pub mod log_tabs;
pub mod log_view;
pub mod modes;
pub mod state_machine;
pub mod text;
pub mod toast;
pub mod watcher;
