//! Decision logic of a synthetic "womb bed": the attack/decay envelope state
//! machine, the heartbeat trigger scheduler that keeps lub and dub in turn, and
//! the checks on construction parameters.
pub mod envelope;
pub mod params;
pub mod scheduler;
