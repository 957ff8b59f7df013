//! An access layer over an embedded, ordered key-value storage engine:
//! database lifecycle, named keyspaces (column families), point operations,
//! atomic batches, and cursor-based iteration.
//!
//! The engine itself is an external collaborator. Everything this crate can
//! decide without a live engine is verified here: translating option mappings
//! into a configuration, resolving keyspace names freshly per operation,
//! staging atomic batches, classifying engine replies into the error
//! taxonomy, and driving cursors. A cursor here owns no borrowed native
//! state: it is a pure position, and each advance is planned as a fresh seek
//! request (`seek_request`) whose reply the cursor absorbs (`next`), so a
//! cursor can never outlive or dangle into the handle it came from. The shell
//! that owns the native engine performs the requested calls and hands the
//! replies back.

pub mod batch;
pub mod cursor;
pub mod db;
pub mod errors;
pub mod model;
pub mod options;
pub mod order;
