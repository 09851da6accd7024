//! A bounded worker pool, modelled as a verified state machine.
//!
//! The pool's decisions (what a submission does, what a worker does next,
//! how shutdown proceeds) live here with their contracts; threads, locks and
//! waiting are left to the embedding program, which performs the action that
//! each step hands back.
pub mod message;
pub mod pool;
