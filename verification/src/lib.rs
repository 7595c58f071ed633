//! A verified core for a process supervisor used by an integration-test
//! harness: it owns the lifecycle bookkeeping for a spawned node process,
//! classifies that process's log lines by the failure-marker convention, and
//! derives read-only views (network address, trusted-peer descriptor) from the
//! node's configuration.
//!
//! All file and process I/O is left to the surrounding harness; the functions
//! here compute on plain values handed in and are verified against their
//! contracts.

pub mod config;
pub mod logger;
pub mod mempool;
pub mod process;

pub use config::{Explorer, JormungandrConfig, TrustedPeer};
pub use logger::JormungandrLogger;
pub use process::{JormungandrError, JormungandrProcess};
pub use mempool::{LogMaxEntries, Mempool, PoolMaxEntries};
