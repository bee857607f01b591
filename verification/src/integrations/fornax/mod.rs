pub mod redaction;
pub mod redaction_law;
pub mod types;
pub mod prompt;
pub mod render_laws;
pub mod bridge_protocol;
pub mod span_semantics;
pub mod error;
pub mod cli_version;
pub mod evaluation;
pub mod bridge_config;
pub mod bridge_daemon;
pub mod delivery;
pub mod workflow_client;
pub mod bridge_http;
pub mod durable_trace_write;
pub mod trace_read;
pub mod skill;
pub mod prompt_read;
pub mod cli_config;
pub mod trace_write;
