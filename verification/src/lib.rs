use vstd::prelude::*;

pub mod app_server;
pub mod browser_cli;
pub mod browser_session;
pub mod browser_tui;
pub mod code_mode;
pub mod codex_apps;
pub mod exec_process;
pub mod exec_server;
pub mod git_utils;
pub mod hooks;
pub mod host_bridge;
pub mod http_client;
pub mod login;
pub mod network_proxy;
pub mod otel;
pub mod plugins;
pub mod process_registry;
pub mod retry;
pub mod rollout;
pub mod rollout_store;
pub mod shell_command;
pub mod rmcp;
pub mod state;
pub mod state_runtime;
pub mod table;
pub mod text;
pub mod thread_metadata;

verus! {
} // verus!
