use vstd::prelude::*;

verus! {

/// How SQLite keeps its rollback journal.
#[derive(Debug, Clone, Copy, PartialEq, Eq, Structural)]
pub enum JournalMode {
    Delete,
    Truncate,
    Persist,
    Memory,
    Wal,
    Off,
}

/// How SQLite reclaims free pages.
#[derive(Debug, Clone, Copy, PartialEq, Eq, Structural)]
pub enum AutoVacuum {
    Disabled,
    Full,
    Incremental,
}

/// Default number of pooled connections.
pub const DEFAULT_MAX_POOL_SIZE: u32 = 5;

/// Default time a connection waits on a locked database, in milliseconds.
pub const DEFAULT_BUSY_TIMEOUT_MS: u64 = 5000;

/// Default time a caller waits for a free connection, in milliseconds.
pub const DEFAULT_ACQUIRE_TIMEOUT_MS: u64 = 30000;

/// Default time an unused connection stays open, in milliseconds.
pub const DEFAULT_IDLE_TIMEOUT_MS: u64 = 600000;

/// The recognised configuration of a store.
#[derive(Debug, Clone, Copy, PartialEq, Eq, Structural)]
pub struct StoreOptions {
    pub max_pool_size: u32,
    pub busy_timeout_ms: u64,
    pub acquire_timeout_ms: u64,
    pub idle_timeout_ms: u64,
    pub journal_mode: JournalMode,
    pub auto_vacuum: AutoVacuum,
}

impl StoreOptions {
    /// A usable configuration holds at least one connection.
    pub open spec fn wf(&self) -> bool {
        self.max_pool_size >= 1
    }

    /// The default configuration: write-ahead logging, incremental
    /// vacuuming and the default sizes and timeouts above.
    pub open spec fn new_spec() -> StoreOptions {
        StoreOptions {
            max_pool_size: DEFAULT_MAX_POOL_SIZE,
            busy_timeout_ms: DEFAULT_BUSY_TIMEOUT_MS,
            acquire_timeout_ms: DEFAULT_ACQUIRE_TIMEOUT_MS,
            idle_timeout_ms: DEFAULT_IDLE_TIMEOUT_MS,
            journal_mode: JournalMode::Wal,
            auto_vacuum: AutoVacuum::Incremental,
        }
    }

    /// The default configuration.
    pub fn new() -> (r: StoreOptions)
        ensures
            r == StoreOptions::new_spec(),
            r.wf(),
    {
        StoreOptions {
            max_pool_size: DEFAULT_MAX_POOL_SIZE,
            busy_timeout_ms: DEFAULT_BUSY_TIMEOUT_MS,
            acquire_timeout_ms: DEFAULT_ACQUIRE_TIMEOUT_MS,
            idle_timeout_ms: DEFAULT_IDLE_TIMEOUT_MS,
            journal_mode: JournalMode::Wal,
            auto_vacuum: AutoVacuum::Incremental,
        }
    }
}

} // verus!
