//! Persisted job queue, worker decisions and fetch-execution pipeline for
//! recurring HTTP fetch definitions.
pub mod config;
pub mod schedule;
pub mod queue;
pub mod model;
pub mod pipeline;
pub mod execution;
pub mod worker;
pub mod response;
