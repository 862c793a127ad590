//! State owned by one thread.
pub mod pi;
pub mod placement;
pub mod record;
