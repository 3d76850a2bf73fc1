//! Decision logic of a machine-wide volume control.
//!
//! A host's audio mixer holds one session per process that plays sound. This
//! library decides what a volume control does with the sessions that one
//! enumeration yields: which level or mute flag it reports, which writes it
//! issues and in what order, what it records of their outcomes, and what it
//! answers to the caller. The platform calls themselves are made by the
//! program that embeds the library.
//!
//! - [`level`]: volume levels and how they are brought into `[0, 1]`;
//! - [`error`]: what makes an operation fail;
//! - [`mixer`]: sessions, writes, and what an accepted write does;
//! - [`volume`]: the reads and writes of the volume control;
//! - [`api`]: the answers to the requests that reach it.
pub mod api;
pub mod error;
pub mod level;
pub mod mixer;
pub mod volume;
