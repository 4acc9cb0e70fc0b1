//! Navigation, command parsing and settings-panel logic of the Grok pager.
pub mod text;
pub mod timeline;
pub mod commands;
pub mod models;
pub mod plan_mode;
pub mod ui_config;
pub mod settings;
pub mod pi_settings;
pub mod decimal;
pub mod acp_command;
pub mod interactions;
pub mod model_details;
