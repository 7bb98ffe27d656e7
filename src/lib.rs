//! Deploys a configuration directory to a fleet of machines over SSH.
//!
//! The library holds the decisions: which nodes a run touches, the ordered
//! steps of one node's deployment and when it rolls back, the command lines
//! that each step runs, and the bookkeeping that drains a remote command's two
//! output streams into a log. Running the commands is left to the caller.
pub mod config;
pub mod commands;
pub mod mux;
pub mod outcome;
pub mod node;
pub mod plan;
