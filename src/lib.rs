//! Execution driver for compiled Cairo programs whose oracle calls are gated by
//! a lock manifest: lock-path resolution, manifest and program loading, the
//! oracle permission check, and the classification and rendering of a run's
//! terminal outcome.

pub mod error;
pub mod layout;
pub mod lock;
pub mod outcome;
pub mod loader;
pub mod oracle;
