//! A run of the agent: what it sends to the model, what it lets the model do, and how it ends.

pub mod conversation_laws;
pub mod hydration;
pub mod model;
pub mod policy;
pub mod policy_laws;
pub mod run;
pub mod run_laws;
pub mod session;
pub mod setup;
pub mod step_laws;
pub mod tool_output;
