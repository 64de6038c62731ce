//! Periodic timers that the operating system keeps, with proofs of what they do.
//!
//! [`periodic`] holds the timer that an event loop polls. Under it stands the timer of one
//! system: [`linux`], [`kqueue`] or [`windows`]. These decide what to ask of the system and what
//! its answers mean; the system calls themselves are made outside this crate.
pub mod count;
pub mod error;
pub mod interest;
pub mod interval;
pub mod kqueue;
pub mod linux;
pub mod periodic;
pub mod schedule;
pub mod windows;
