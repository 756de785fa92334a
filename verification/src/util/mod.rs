//! Helpers around the child processes that the clients run.

pub mod process;
