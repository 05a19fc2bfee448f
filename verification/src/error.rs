//! The failures that the data-access layer reports.

use crate::config::Setting;
use vstd::prelude::*;

verus! {

/// Why no pool could be opened from the settings.
#[derive(Debug, Clone, Copy, PartialEq, Eq, Structural)]
pub enum ConfigError {
    /// A required setting is absent.
    Missing(Setting),
    /// The settings do not form a connection URL that the store client accepts.
    InvalidUrl,
    /// The connection URL asks for a pool of more connections than this
    /// library opens.
    PoolTooLarge,
}

/// A failure of one operation of the data-access layer. None is retried.
#[derive(Debug, Clone, Copy, PartialEq, Eq, Structural)]
pub enum LedgerError {
    /// The connection settings are missing or invalid.
    Config(ConfigError),
    /// The pool could not hand out a connection.
    Connection,
    /// A statement that provisions the schema failed.
    Schema,
    /// The file to load could not be read.
    Io,
    /// The insert for the row with this index, counted over the rows that were
    /// accepted for writing, failed; the rows after it were not written.
    Write { row: usize },
    /// A statement of the repository or of the report failed.
    Query,
}

} // verus!
