//! A pool per type.
//!
//! A type that implements [`ConnectionInfo`] names the defaults of its
//! backend and gets [`ConnectionInfo::create_pool`] for them. One that also
//! implements [`StaticPoolContext`] stands for the pool that the process
//! keeps for it, and gets the accessor of that pool.

use crate::backend::{default_fragments, defaults};
use crate::config::{ConfigError, ConfigErrorView, PoolConfigView};
use crate::global::{expected_config, Environment, Initializer, Resolver, ResolverView};
use crate::pool::{
    get_connection, init_unchecked, lender, BuildMode, Pool, PoolError, PoolView,
    PooledConnection,
};
use crate::url::UrlFragments;
use vstd::prelude::*;

verus! {

/// `r` is the pool of the configuration `expected`, or the reason why there
/// is no configuration.
pub open spec fn pool_of(
    expected: Result<PoolConfigView, ConfigErrorView>,
    r: Result<Pool, ConfigError>,
) -> bool {
    match expected {
        Ok(config) => r is Ok && r->Ok_0@ == (PoolView {
            connection_string: config.connection_string,
            max_size: config.max_connections,
        }),
        Err(e) => r is Err && r->Err_0@ == e,
    }
}

/// Builds the pool for what the environment holds, without waiting for the
/// database. The connection string is composed from `defaults` and the
/// overrides of the environment. The pool is built if and only if a
/// configuration can be resolved.
pub fn create_pool_with(defaults: UrlFragments, env: &Environment) -> (r: Result<Pool, ConfigError>)
    ensures
        pool_of(expected_config(ResolverView::Composed(defaults@), env@), r),
{
    let initializer = Initializer {
        resolver: Resolver::Composed(defaults),
        mode: BuildMode::NonValidating,
    };
    match initializer.resolve(env) {
        Err(e) => Err(e),
        Ok(config) => Ok(init_unchecked(&config)),
    }
}

/// What a type has to say to get a pool: the URL of its service where the
/// environment says nothing.
pub trait ConnectionInfo {
    /// The fragments of the default URL.
    fn defaults() -> UrlFragments;

    /// Builds the pool for what the environment holds, as
    /// [`create_pool_with`] does, for the fragments that
    /// [`ConnectionInfo::defaults`] gives.
    fn create_pool(env: &Environment) -> (r: Result<Pool, ConfigError>)
        ensures
            exists|defaults: UrlFragments| #[trigger]
                call_ensures(Self::defaults, (), defaults) && pool_of(
                    expected_config(ResolverView::Composed(defaults@), env@),
                    r,
                ),
    {
        create_pool_with(Self::defaults(), env)
    }
}

/// A type that stands for the one pool that the process keeps for it.
pub trait StaticPoolContext: ConnectionInfo {
    /// The pool of the process.
    fn pool() -> &'static Pool;

    /// Checks a connection out of the pool of the process: one checkout, on
    /// the pool that [`StaticPoolContext::pool`] gives. A connection that
    /// comes back was lent by that pool; an error is a timeout.
    fn get_connection() -> (r: Result<PooledConnection, PoolError>)
        ensures
            r matches Ok(connection) ==> exists|pool: Pool| #[trigger]
                call_ensures(Self::pool, (), &pool) && lender(connection) == pool,
            r matches Err(error) ==> error@ is Timeout,
    {
        get_connection(Self::pool())
    }
}

/// The pool of SQLite connections at `sqlite://./db.sqlite`, or wherever the
/// environment points.
pub struct ConnectionPool;

impl ConnectionInfo for ConnectionPool {
    fn defaults() -> (r: UrlFragments)
        ensures
            r@ == default_fragments(),
    {
        defaults()
    }
}

} // verus!
