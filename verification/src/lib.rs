//! Backend-process supervisor: locates, launches, monitors and terminates the
//! companion server binary that a desktop GUI shell depends on, and maps tray
//! menu actions onto that lifecycle.
//!
//! The library computes every decision the supervisor makes — the resolved
//! binary path, the exact shell commands for spawning, reaping and killing,
//! and the effects of each tray action — as plain values with proved
//! contracts. Executing those commands (spawning processes, opening the
//! browser, showing windows) is left to the thin, unverified shell around it.

pub mod command;
pub mod os;
pub mod path_resolver;
pub mod strutil;
pub mod supervisor;
pub mod tray;
