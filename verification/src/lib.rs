//! Supervisor core for a desktop notes application.
//!
//! The heart of this crate is the process-supervision logic: a table of
//! interactive terminal sessions with an admission policy (capacity cap and
//! age-based sweep), the per-session output relay protocol, and the
//! single-slot controller for the long-running `opencode` server process.
//! All decisions are made here over plain values; the surrounding
//! application performs the actual OS calls (spawning, reading, killing)
//! and feeds their outcomes back in as events.
//!
//! A few small helpers used by the application's file-browsing and
//! installer collaborators live here as well: vault path containment,
//! embeddable-asset classification, and install-path / download-URL
//! construction.

pub mod errors;
pub mod session;
pub mod relay;
pub mod sidecar;
pub mod text;
pub mod vault;
pub mod install;
