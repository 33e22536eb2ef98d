//! Shorthand git subcommands: the arguments of each invocation, and the policy
//! that deletes local branches whose remote-tracking branch a fetch pruned.

pub mod commands;
pub mod policy;
pub mod pruning;
pub mod text;
