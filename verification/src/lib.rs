//! Verified core of the MCP Dockmaster tool manager.
pub mod text;
pub mod strmap;
pub mod json;
pub mod config;
pub mod core_settings;
pub mod frame_codec;
pub mod entities;
pub mod dto;
pub mod desktop;
pub mod db_rows;
pub mod registration;
pub mod listing;
pub mod services;
pub mod server_model;
pub mod server_ops;
pub mod process;
pub mod proxy_router;
pub mod registry_types;
pub mod rpc;
pub mod mcp_http;
pub mod migration;
pub mod core_steps;
