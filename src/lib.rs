//! One-time set-up of a process's structured logging: which sink is attached,
//! how it is filtered, and what a repeated set-up does.
pub mod error;
pub mod filter;
pub mod setup;
pub mod target;
