//! Scheduling core of a small symmetric multiprocessing kernel, with the
//! handful of hardware-facing tables that the same kernel builds on.
use vstd::prelude::*;

pub mod clock;
pub mod config;
pub mod cpu;
pub mod download;
pub mod error;
pub mod facade;
pub mod guard;
pub mod ids;
pub mod ion;
pub mod laws;
pub mod page_layout;
pub mod paging;
pub mod scheduler;
pub mod system;
pub mod thread;
pub mod time;
pub mod timer;
pub mod wait_queue;

verus! {

} // verus!
