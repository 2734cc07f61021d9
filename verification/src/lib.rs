//! A library for a terminal dashboard that monitors message queues in a
//! remote queueing service: it models the controller state (queue list,
//! selection, filtering, purge-confirmation protocol), the scheduler's
//! dispatch decisions, and the parsing of queue attributes reported by the
//! service.

pub mod app;
pub mod events;
pub mod parse;
pub mod sort;
pub mod types;
