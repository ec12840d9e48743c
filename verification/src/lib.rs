//! The logic of a local agent: its configuration, its run loop, its daemon and its gateway.

pub mod app;
pub mod cli;
pub mod config;
pub mod config_laws;
pub mod daemon;
pub mod discord_gateway;
pub mod error;
pub mod json;
pub mod paths;
pub mod text;
pub mod text_laws;
pub mod time;
pub mod tool_catalog;
