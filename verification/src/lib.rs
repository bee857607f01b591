//! Persisted workflow runtime: typed definitions, durable scheduling and
//! retry decisions, and the adapters that guard external CLI boundaries.
pub mod args;
pub mod digest;
pub mod ids;
pub mod integrations;
pub mod json;
pub mod registry;
pub mod runtime;
pub mod text;
