//! Opening the connection pool from a configuration.
//!
//! The store client parses the connection URL and builds the pool. Both calls
//! are taken on trust here: what this module proves is which URL is handed to
//! the client, how the client's answer becomes the result, and that no pool is
//! asked for that is larger than this library opens.
//!
//! The settings are placed in the URL as they are, so a setting can carry
//! parameters of the URL with it, the size of the pool among them. The client
//! sets aside room for a pool of the largest size when it builds one; a size
//! beyond `POOL_LIMIT` is therefore refused as a fault of the settings before
//! the client is asked to build anything.

use crate::config::{connection_url, url_of, DbConfig};
use crate::error::{ConfigError, LedgerError};
use vstd::prelude::*;

verus! {

/// The largest number of connections of a pool that this library opens.
pub const POOL_LIMIT: usize = 10_000;

/// The client's reason for rejecting a connection URL.
#[verifier::external_type_specification]
#[verifier::external_body]
pub struct ExUrlError(mysql_async::UrlError);

/// The client's pool of connections.
#[verifier::external_type_specification]
#[verifier::external_body]
pub struct ExPool(mysql_async::Pool);

/// Whether `mysql_async::Opts::from_url` accepts the text as a connection URL.
pub uninterp spec fn url_accepted(url: Seq<char>) -> bool;

/// The upper bound of the pool in the options that `mysql_async::Opts::from_url`
/// makes of a connection URL that it accepts.
pub uninterp spec fn url_pool_max(url: Seq<char>) -> usize;

/// Calls `mysql_async::Opts::from_url`, which parses a connection URL into
/// connection options, and hands back the upper bound of the pool that the
/// options hold, read with `Opts::pool_opts`, `PoolOpts::constraints` and
/// `PoolConstraints::max`. Taken on trust: the verdict and the bound depend on
/// the text alone, which is what `url_accepted` and `url_pool_max` name.
#[verifier::external_body]
fn parse_url(url: &str) -> (parsed: Result<usize, mysql_async::UrlError>)
    ensures
        parsed is Ok == url_accepted(url@),
        parsed is Ok ==> parsed->Ok_0 == url_pool_max(url@),
{
    mysql_async::Opts::from_url(url).map(|opts| opts.pool_opts().constraints().max())
}

/// Calls `mysql_async::Pool::new` on a connection URL. The call parses the URL
/// as `Opts::from_url` does and panics where that fails; it then builds the
/// pool's bookkeeping, for which it sets aside room for as many idle
/// connections as the upper bound of the pool says, and connects to nothing.
/// Asked for only on a URL that is accepted and whose pool is within
/// `POOL_LIMIT`. Nothing is claimed of the pool.
#[verifier::external_body]
fn new_pool(url: &str) -> (pool: mysql_async::Pool)
    requires
        url_accepted(url@),
        url_pool_max(url@) <= POOL_LIMIT,
{
    mysql_async::Pool::new(url)
}

/// Judges the client's verdict on a connection URL: the upper bound of the
/// pool where the URL was accepted and the bound is within `POOL_LIMIT`, and
/// otherwise the fault of the settings.
pub fn checked_pool_size(parsed: Result<usize, mysql_async::UrlError>) -> (checked: Result<
    usize,
    LedgerError,
>)
    ensures
        checked is Ok == (parsed is Ok && parsed->Ok_0 <= POOL_LIMIT),
        checked is Ok ==> checked->Ok_0 == parsed->Ok_0,
        parsed is Err ==> checked == Err::<usize, LedgerError>(
            LedgerError::Config(ConfigError::InvalidUrl),
        ),
        parsed is Ok && parsed->Ok_0 > POOL_LIMIT ==> checked == Err::<usize, LedgerError>(
            LedgerError::Config(ConfigError::PoolTooLarge),
        ),
{
    match parsed {
        Ok(size) => if size <= POOL_LIMIT {
            Ok(size)
        } else {
            Err(LedgerError::Config(ConfigError::PoolTooLarge))
        },
        Err(_) => Err(LedgerError::Config(ConfigError::InvalidUrl)),
    }
}

/// Opens the connection pool of a configuration.
///
/// The pool is opened exactly when the store client accepts the connection URL
/// of the configuration and the pool that the URL asks for is within
/// `POOL_LIMIT`; no connection is made yet. A URL that is not accepted is
/// reported as invalid, and an accepted one with a larger pool as asking for
/// too large a pool.
pub fn connect_db(config: &DbConfig) -> (opened: Result<mysql_async::Pool, LedgerError>)
    ensures
        opened is Ok == (url_accepted(url_of(config@)) && url_pool_max(url_of(config@))
            <= POOL_LIMIT),
        !url_accepted(url_of(config@)) ==> opened is Err && opened->Err_0 == LedgerError::Config(
            ConfigError::InvalidUrl,
        ),
        url_accepted(url_of(config@)) && url_pool_max(url_of(config@)) > POOL_LIMIT ==> opened
            is Err && opened->Err_0 == LedgerError::Config(ConfigError::PoolTooLarge),
{
    let url = connection_url(config);
    match checked_pool_size(parse_url(url.as_str())) {
        Ok(_) => Ok(new_pool(url.as_str())),
        Err(fault) => Err(fault),
    }
}

} // verus!
