//! A data-access layer for a single sales ledger kept in a relational store.
//!
//! The library decides *what* is sent to the store and *how a conversation with
//! it proceeds*; the caller performs the network round trips. Every statement is
//! a fixed text with bound values, so no value supplied by a caller ever becomes
//! part of the statement text.
//!
//! - [`config`] and [`pool`]: the connection settings, the connection URL, and
//!   the pool that the store client opens for it.
//! - [`decimal`]: prices as decimal texts.
//! - [`statement`] and [`ledger`]: the statements, and the plan of each
//!   operation of the ledger.
//! - [`ingest`]: the plan that loads comma-separated text into the ledger.
//! - [`run`]: carrying out a plan, one round trip at a time.
//! - [`store`] and [`effects`]: what the statements mean to the store, as
//!   mathematics, and what follows for the operations.

pub mod config;
pub mod decimal;
pub mod effects;
pub mod error;
pub mod ingest;
pub mod ledger;
pub mod pool;
pub mod run;
pub mod statement;
pub mod store;

pub use config::{connection_url, get_db_config, DbConfig, DbConfigView, Setting};
pub use decimal::Decimal;
pub use error::{ConfigError, LedgerError};
pub use ingest::{ingest_csv, ingest_rows, insert_data_from_csv, Ingestion};
pub use ledger::{
    check_data, clear_table, complex_query, create_tables_if_not_exists, delete_data, insert_data,
    insert_statement, update_data, LedgerEntry, Operation, Plan,
};
pub use pool::{checked_pool_size, connect_db, POOL_LIMIT};
pub use run::{Action, Reply, Run, Stage, Summary};
pub use statement::{Param, Rows, Statement};
