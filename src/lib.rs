//! Recurring, multi-step HTTP monitoring jobs: request chains, per-job
//! cookie jars and the decisions that drive each job's loop.
pub mod chain;
pub mod cookies;
pub mod maera;
pub mod request;
pub mod uri;
