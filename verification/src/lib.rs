//! Verified core of a small continuous-deployment daemon.
//!
//! The library covers the deployment pipeline: mapping a repository
//! identifier to its local path and remote URL, resolving the effective
//! build/run configuration of a repository, planning repository
//! synchronization (clone or fast-forward update), splitting command
//! lines, and the staged install/build/start pipeline itself.  All
//! filesystem, network and process work is left to the surrounding
//! program, which drives the verified planners with plain values.

pub mod config;
pub mod git;
pub mod github;
pub mod locks;
pub mod pipeline;
pub mod runner;
pub mod text;
pub mod utils;
