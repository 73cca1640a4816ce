//! Terminal session engine with a verified registry core.
//!
//! The library manages pseudo-terminal backed shell sessions: a registry of
//! live sessions keyed by unique identifiers, a single "active session"
//! pointer, and the per-session output-forwarding contract. The surrounding
//! data-plumbing subsystems (project discovery, agent-file parsing, git
//! status reporting, content records) contribute their pure decision and
//! parsing logic here; their I/O edges live outside the library.

pub mod agents;
pub mod content;
pub mod discovery;
pub mod errors;
pub mod gitsync;
pub mod forward;
pub mod laws;
pub mod projects;
pub mod registry;
pub mod session;
pub mod spawn;
pub mod state;
pub mod tasks;
pub mod text;
pub mod watcher;
