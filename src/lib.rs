//! Mirrors changed files of a watched folder into one fixed destination file.
//!
//! The library holds the decisions: which change notifications lead to a copy,
//! where each copy goes, how a configuration is assembled from the answers of
//! a first run, and the control state machine that drives start-up and the
//! watch loop. Performing the copies and watching the file system is left to
//! the caller.

pub mod paths;
pub mod event;
pub mod config;
pub mod control;
pub mod laws;
