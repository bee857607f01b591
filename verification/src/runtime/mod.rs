pub mod graph;
pub mod graph_laws;
pub mod scheduler;
pub mod retry;
pub mod approval;
pub mod approval_laws;
pub mod failure_injection;
pub mod node_host;
pub mod records;
pub mod recovery;
pub mod wake_laws;
pub mod document_update;
pub mod interaction;
pub mod driver;
pub mod commit_laws;
pub mod approval_flow;
pub mod node_client;
pub mod artifacts;
pub mod concurrency;
pub mod outbox;
pub mod audit;
pub mod cancellation;
pub mod cancellation_signal;
pub mod skill_policy;
pub mod interaction_poll;
pub mod recovery_step;
pub mod node_ensure;
pub mod approval_step;
pub mod interaction_step;
