//! Scheduling policies, entities and per-CPU run queues.
pub mod accounting;
pub mod activation;
pub mod balance;
pub mod bandwidth;
pub mod deadline;
pub mod entity;
pub mod fair;
pub mod fairness;
pub mod laws;
pub mod moves;
pub mod policy;
pub mod realtime;
pub mod run_queue;
pub mod scan;
pub mod selection;
pub mod task;
