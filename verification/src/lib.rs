//! The client side of the Helm launch flow: per-tab endpoint bindings, the
//! `helm-warp://` launch URL, token exchange and refresh, request construction for
//! the multi-agent endpoint, and the OpenRouter adapter.
pub mod agent_context;
pub mod agent_request;
pub mod auth;
pub mod channel;
pub mod helm_launch;
pub mod helm_tab_binding;
pub mod helm_warp;
pub mod http_status;
pub mod multi_agent;
pub mod multi_agent_mock;
pub mod openrouter;
pub mod openrouter_stream;
pub mod outside;
pub mod slash_commands;
pub mod text;
pub mod urls;
