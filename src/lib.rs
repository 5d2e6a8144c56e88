//! Utilities for driving completion-based asynchronous operations.

pub mod adapters;
pub mod driver;
pub mod signal;
