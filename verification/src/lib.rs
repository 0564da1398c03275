//! Turn pipeline of an interactive agent: the conversation item model, the
//! outbound request builder, the response stream decoder and the session log.

pub mod client_common;
pub mod config;
pub mod git_info;
pub mod json;
pub mod models;
pub mod protocol;
pub mod rollout;
pub mod stream;
pub mod telemetry;
pub mod text;
pub mod wire;
