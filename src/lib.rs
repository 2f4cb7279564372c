//! A gateway between a managed host runtime and the UPLC evaluation engine.
//!
//! Every buffer that the host hands in is copied into owned memory before the
//! engine sees it ([`marshal`], [`gateway::prepare_evaluation`]), a request that
//! the engine would refuse by stopping is answered here instead, and every
//! outcome leaves as a two-armed [`reply::Reply`] ([`gateway::apply_reply`],
//! [`gateway::evaluation_reply`]).
use vstd::prelude::*;

pub mod engine;
pub mod gateway;
pub mod laws;
pub mod marshal;
pub mod reply;
