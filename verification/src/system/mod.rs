//! The scheduler of all CPUs.
pub mod bandwidth;
pub mod charge;
pub mod commit;
pub mod ready;
pub mod restate;
pub mod policy;
pub mod policy_update;
pub mod inherit;
pub mod pi_graph;
pub mod pi_chain;
pub mod pi_waiters;
pub mod pi;
pub mod pi_laws;
pub mod pi_membership;
pub mod pi_mutex;
pub mod pi_handoff;
pub mod switch_out;
pub mod switch_in;
pub mod switch;
pub mod switch_tail;
pub mod outcomes;
pub mod park;
pub mod effects;
pub mod exit;
pub mod laws;
pub mod root_domain;
pub mod task_system;
pub mod choices;
pub mod creation;
pub mod placement;
pub mod affinity;
pub mod delivery;
pub mod membership;
pub mod migration;
pub mod pull;
pub mod sharing;
pub mod soundness;
pub mod steps;
pub mod drain;
pub mod wake;
pub mod waking;
