//! Client-side logic for a `beta-program` CLI subcommand: querying and
//! toggling a daemon's "receive beta-release notifications" preference.
//!
//! The library holds everything that can be decided locally: the policy
//! argument domain, the rule that a beta build may not disable the beta
//! channel, the mapping from a planned command to the single remote call it
//! requires, and the exact output line. Opening the RPC connection and
//! performing the call belong to the surrounding binary.

pub mod command;
pub mod policy;
pub mod text;
