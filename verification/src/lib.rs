pub mod activity;
pub mod config;
pub mod panel;
pub mod panel_commands;
pub mod panel_keys;
pub mod panel_text;
pub mod panel_view;
pub mod paths;
pub mod policy;
pub mod provider;
pub mod runtime;
pub mod stream;
pub mod supervisor;
pub mod tables;
pub mod text;
pub mod workers;
