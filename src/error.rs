use vstd::prelude::*;

verus! {

/// Why an operation on the store did not succeed.
#[derive(Debug, Clone, Copy, PartialEq, Eq, Structural)]
pub enum StoreError {
    /// The store's location cannot be reached: a bad path, a missing or
    /// read-only parent directory, or another I/O problem.
    Unreachable,
    /// The file exists but is not a usable database.
    CorruptFile,
    /// No connection became free before the acquisition timeout elapsed.
    PoolExhausted,
    /// Schema migration to the given version failed and was rolled back.
    MigrationFailed(u32),
}

} // verus!
