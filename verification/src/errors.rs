use vstd::prelude::*;

verus! {

/// The failure taxonomy of the access layer. Every fallible operation returns
/// `Result<_, RockerError>`, so a caller can branch on success first and only
/// then inspect the failure. Not-found reads and exhausted cursors are normal
/// negative results and are reported as `Ok(None)`, never as an error.
#[derive(Debug, Clone, PartialEq, Eq)]
pub enum RockerError {
    /// The engine refused an operation (bad configuration on open, I/O fault,
    /// corruption); carries the engine's message text verbatim.
    Engine { message: String },
    /// A named keyspace did not resolve against the current handle, either
    /// because it never existed or because it has since been dropped.
    UnknownKeyspace { name: String },
    /// A recognized option name carried a value of the wrong shape or range.
    BadOptionValue { name: String },
}

} // verus!
