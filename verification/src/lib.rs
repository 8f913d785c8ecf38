//! A test-matrix runner library: decides which (toolchain version x feature
//! combination) pairs to test, schedules them under a concurrency bound,
//! and tracks transient workspaces so they can always be cleaned up.

pub mod command;
pub mod config;
pub mod matrix;
pub mod scheduler;
pub mod task;
pub mod version;
