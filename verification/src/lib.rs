//! A plugin-management framework: plugin lifecycle states, a configuration that maps
//! plugin types to libraries, an in-process event bus, authentication decisions,
//! and the logic of the plugin host and of the plugin scaffolding generator.

mod text;

pub mod error;
pub mod event_bus;
pub mod config;
pub mod database;
pub mod auth;
pub mod plugin;
pub mod host;
pub mod news;
pub mod cli;
pub mod library;
