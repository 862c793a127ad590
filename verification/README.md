# axkernel

The decision logic of a small kernel, written and proved in Verus: a
multiprocessor thread scheduler with fair, realtime and Deadline classes and
priority inheritance, and the pieces around it.

| Module | What it holds |
| --- | --- |
| `ids`, `time`, `error`, `config` | vocabulary |
| `scheduler` | policies, scheduling entities, run queues, admission, bandwidth |
| `thread` | thread records, placement, wait lists of inheriting mutexes |
| `cpu` | what one CPU owns: run queue, dispatch, clock, inbox, doorbell, load |
| `system` | operations on all threads and CPUs, and what holds of them as a whole |
| `facade` | operations on behalf of the running thread |
| `wait_queue`, `timer`, `guard` | waiting, deadlines, nested critical sections |
| `paging` | page-table entries of four architectures |
| `download`, `clock`, `ion` | boot download, device-tree clocks, buffer heap |

Functions of `src/` take the time, the CPU they run on and the answers of the
platform as arguments, and leave what the platform has to do (a doorbell to
ring, a context to switch to) in the state or in the result. `app/` is the
ordinary Rust around them.

Statements about several operations at once stand as public proof functions:
`system/laws.rs`, `system/membership.rs`, `system/pi_membership.rs`,
`system/soundness.rs` and `system/waking.rs` for the scheduler as a whole,
`scheduler/scan.rs` for the search for threads that may leave a CPU, and next to
the code that they are about elsewhere.
