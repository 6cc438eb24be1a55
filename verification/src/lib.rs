//! The decisions of a long-running background agent: a metrics endpoint, a
//! loop that consumes queued text messages, a directory watcher, and the
//! supervisor that starts the three and takes them down in a fixed order.
//!
//! The library decides and never waits. Sockets, channels, signals and the
//! log sink belong to the program around it, which performs what the
//! functions here decide and reports back what happened.

pub mod event_loop;
pub mod lifecycle;
pub mod metrics;
pub mod supervisor;
pub mod watcher;
