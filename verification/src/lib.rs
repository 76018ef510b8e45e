//! NexusMCP: the decision, scoring and extraction logic of a browser
//! automation server for AI agents, with its contracts proved by Verus.
use vstd::prelude::*;

pub mod text;
pub mod dom;
pub mod engine;
pub mod extraction;
pub mod observability;
pub mod hidden_gems;
pub mod mcp;
pub mod agent;
pub mod session;

verus! {

} // verus!
