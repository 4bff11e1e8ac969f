//! An event-sourcing substrate: an append-only event log with
//! offset-addressed, blocking tail reads, and a transactional persistence
//! boundary that lets a log implementation insist on its own backend's
//! transaction while callers stay backend-agnostic.

pub mod event;
pub mod event_log;
pub mod in_memory;
pub mod persistence;
pub mod services;
pub mod tui;
