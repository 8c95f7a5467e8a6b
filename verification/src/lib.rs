//! A verified model of a documentation deployment job.
//!
//! The job copies a local tarball to a remote web host and then drives an
//! interactive remote shell through a fixed transcript of commands that
//! replaces the contents of a web-served directory with the tarball's
//! contents. The decision logic — which command to send next, what reply to
//! wait for, and when to give up — lives here as a verified state machine;
//! the process spawning and pseudo-terminal interaction are performed by an
//! unverified driver that feeds outcomes back into the machine.

pub mod config;
pub mod job;
pub mod laws;
pub mod remote;
pub mod run;
pub mod transcript;
