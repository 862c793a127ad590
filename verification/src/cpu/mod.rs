//! State owned by one CPU.
pub mod clock;
pub mod deadline;
pub mod dispatch;
pub mod doorbell;
pub mod handoff;
pub mod inbox;
pub mod ktimer;
pub mod duties;
pub mod laws;
pub mod load;
pub mod local;
pub mod remote;
pub mod run_queue;
