//! Mempool configuration values: bounds on the number of entries kept in the
//! node's mempool and in its fragment logs, with their default sizes and the
//! plain-integer conversions the harness uses to build them.

use vstd::prelude::*;

verus! {

/// Maximum number of entries in the mempool.
#[derive(Debug, Copy, Clone, PartialEq, Eq, Structural, PartialOrd, Ord, Hash)]
pub struct PoolMaxEntries(pub usize);

/// Maximum number of entries in the fragment logs.
#[derive(Debug, Copy, Clone, PartialEq, Eq, Structural, PartialOrd, Ord, Hash)]
pub struct LogMaxEntries(pub usize);

/// Mempool configuration section of the node's configuration.
#[derive(Debug, Clone, PartialEq, Eq, Structural)]
pub struct Mempool {
    /// maximum number of entries in the mempool
    pub pool_max_entries: PoolMaxEntries,
    /// maximum number of entries in the fragment logs
    pub log_max_entries: LogMaxEntries,
}

impl Default for PoolMaxEntries {
    fn default() -> (r: Self)
        ensures
            r == PoolMaxEntries(10_000),
    {
        PoolMaxEntries(10_000)
    }
}

impl Default for LogMaxEntries {
    fn default() -> (r: Self)
        ensures
            r == LogMaxEntries(100_000),
    {
        LogMaxEntries(100_000)
    }
}

impl Default for Mempool {
    fn default() -> (r: Self)
        ensures
            r == (Mempool { pool_max_entries: PoolMaxEntries(10_000), log_max_entries: LogMaxEntries(100_000) }),
    {
        Mempool { pool_max_entries: PoolMaxEntries::default(), log_max_entries: LogMaxEntries::default() }
    }
}

impl From<usize> for PoolMaxEntries {
    fn from(s: usize) -> (r: Self)
        ensures
            r == PoolMaxEntries(s),
    {
        PoolMaxEntries(s)
    }
}

impl vstd::std_specs::convert::FromSpecImpl<usize> for PoolMaxEntries {
    open spec fn obeys_from_spec() -> bool {
        true
    }

    open spec fn from_spec(s: usize) -> Self {
        PoolMaxEntries(s)
    }
}

impl From<PoolMaxEntries> for usize {
    fn from(s: PoolMaxEntries) -> (r: Self)
        ensures
            r == s.0,
    {
        s.0
    }
}

impl vstd::std_specs::convert::FromSpecImpl<PoolMaxEntries> for usize {
    open spec fn obeys_from_spec() -> bool {
        true
    }

    open spec fn from_spec(s: PoolMaxEntries) -> Self {
        s.0
    }
}

impl From<usize> for LogMaxEntries {
    fn from(s: usize) -> (r: Self)
        ensures
            r == LogMaxEntries(s),
    {
        LogMaxEntries(s)
    }
}

impl vstd::std_specs::convert::FromSpecImpl<usize> for LogMaxEntries {
    open spec fn obeys_from_spec() -> bool {
        true
    }

    open spec fn from_spec(s: usize) -> Self {
        LogMaxEntries(s)
    }
}

impl From<LogMaxEntries> for usize {
    fn from(s: LogMaxEntries) -> (r: Self)
        ensures
            r == s.0,
    {
        s.0
    }
}

impl vstd::std_specs::convert::FromSpecImpl<LogMaxEntries> for usize {
    open spec fn obeys_from_spec() -> bool {
        true
    }

    open spec fn from_spec(s: LogMaxEntries) -> Self {
        s.0
    }
}

} // verus!
