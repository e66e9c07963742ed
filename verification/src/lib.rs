//! Configuration resolution for the Keylime agent.
//!
//! The agent's settings come from several sources of rising precedence. This
//! crate merges them over the schema defaults, replaces the keyword values
//! (`default`, `generate`, `hash_ek`, the empty string) by concrete ones, and
//! checks the result before it is handed to the rest of the agent.

pub mod config;
pub mod environment;
pub mod error;
pub mod identity;
pub mod laws;
pub mod overrides;
pub mod paths;
pub mod resolve;
pub mod schema;
pub mod sources;
pub mod text;
