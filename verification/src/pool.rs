//! The pool itself: a bounded set of SQLite connections kept by r2d2.
//!
//! The pool, its builder and the connections it hands out belong to r2d2 and
//! diesel. This module holds them in types of its own, says of each call into
//! the two crates what the call is taken to do, and proves on that footing
//! what [`init`] and [`get_connection`] promise.

use crate::config::PoolConfig;
use diesel::r2d2::ConnectionManager;
use diesel::r2d2::PoolError as TimedOut;
use diesel::sqlite::SqliteConnection;
use vstd::prelude::*;

verus! {

/// `diesel::r2d2::ConnectionManager`, which opens the connections of a pool.
#[verifier::external_type_specification]
#[verifier::external_body]
#[verifier::reject_recursive_types(T)]
pub struct ExConnectionManager<T>(ConnectionManager<T>);

/// `diesel::sqlite::SqliteConnection`, the kind of connection in the pool.
#[verifier::external_type_specification]
#[verifier::external_body]
pub struct ExSqliteConnection(SqliteConnection);

/// The error of r2d2, `diesel::r2d2::PoolError`: a wait that timed out.
#[verifier::external_type_specification]
#[verifier::external_body]
pub struct ExTimedOut(TimedOut);

/// A pool of connections. Copies made by [`Pool::share`] are the same pool.
#[verifier::external_body]
pub struct Pool {
    inner: diesel::r2d2::Pool<ConnectionManager<SqliteConnection>>,
}

/// The settings of a pool that is yet to be built.
#[verifier::external_body]
pub struct PoolBuilder {
    inner: diesel::r2d2::Builder<ConnectionManager<SqliteConnection>>,
}

/// A connection on loan from a pool. It goes back to its pool when it is
/// dropped, on whatever path that happens.
#[verifier::external_body]
pub struct PooledConnection {
    /// The connection, to run statements on.
    pub connection: diesel::r2d2::PooledConnection<ConnectionManager<SqliteConnection>>,
}

/// The URL at which a manager opens its connections.
pub uninterp spec fn manager_url(manager: ConnectionManager<SqliteConnection>) -> Seq<char>;

/// The largest number of connections that a pool built from `builder` keeps.
pub uninterp spec fn builder_max_size(builder: PoolBuilder) -> u32;

/// The number of idle connections that a pool built from `builder` tries to
/// keep, where one is set.
pub uninterp spec fn builder_min_idle(builder: PoolBuilder) -> Option<u32>;

/// The largest number of connections that `pool` keeps.
pub uninterp spec fn pool_max_size(pool: Pool) -> u32;

/// The URL at which `pool` opens its connections.
pub uninterp spec fn pool_url(pool: Pool) -> Seq<char>;

/// The pool that lent `connection`, and that gets it back.
pub uninterp spec fn lender(connection: PooledConnection) -> Pool;

/// What an error of r2d2 says when it is displayed.
pub uninterp spec fn error_text(error: TimedOut) -> Seq<char>;

/// What a pool was built with.
pub struct PoolView {
    pub connection_string: Seq<char>,
    pub max_size: u32,
}

impl View for Pool {
    type V = PoolView;

    open spec fn view(&self) -> PoolView {
        PoolView { connection_string: pool_url(*self), max_size: pool_max_size(*self) }
    }
}

/// `diesel::r2d2::ConnectionManager::new`: the manager keeps the URL that it
/// is given, and opens every connection there.
#[verifier::external_body]
fn new_manager(url: String) -> (manager: ConnectionManager<SqliteConnection>)
    ensures
        manager_url(manager) == url@,
{
    ConnectionManager::new(url)
}

/// `r2d2::Pool::builder`: a builder with r2d2's defaults, which are room for
/// ten connections and no number of idle connections to keep.
#[verifier::external_body]
fn new_builder() -> (builder: PoolBuilder)
    ensures
        builder_max_size(builder) == 10,
        builder_min_idle(builder) is None,
{
    PoolBuilder { inner: diesel::r2d2::Pool::builder() }
}

/// `r2d2::Builder::max_size`: sets the largest number of connections and
/// nothing else. r2d2 panics on zero, which is left out here.
#[verifier::external_body]
fn with_max_size(builder: PoolBuilder, max_size: u32) -> (r: PoolBuilder)
    requires
        max_size > 0,
    ensures
        builder_max_size(r) == max_size,
        builder_min_idle(r) == builder_min_idle(builder),
{
    PoolBuilder { inner: builder.inner.max_size(max_size) }
}

/// `r2d2::Builder::build_unchecked`: a pool with the builder's settings over
/// the manager, returned without waiting for any connection. r2d2 panics
/// where more idle connections are asked for than the pool may hold, which is
/// left out here.
#[verifier::external_body]
fn build_unchecked(builder: PoolBuilder, manager: ConnectionManager<SqliteConnection>) -> (pool:
    Pool)
    requires
        builder_min_idle(builder) matches Some(idle) ==> idle <= builder_max_size(builder),
    ensures
        pool_max_size(pool) == builder_max_size(builder),
        pool_url(pool) == manager_url(manager),
{
    Pool { inner: builder.inner.build_unchecked(manager) }
}

/// `r2d2::Builder::build`: the same pool as `build_unchecked` gives, returned
/// once its connections are open, or r2d2's error where they did not open
/// within the pool's timeout. Which of the two happens is up to the database.
#[verifier::external_body]
fn build(builder: PoolBuilder, manager: ConnectionManager<SqliteConnection>) -> (r: Result<
    Pool,
    TimedOut,
>)
    requires
        builder_min_idle(builder) matches Some(idle) ==> idle <= builder_max_size(builder),
    ensures
        r matches Ok(pool) ==> pool_max_size(pool) == builder_max_size(builder) && pool_url(pool)
            == manager_url(manager),
{
    builder.inner.build(manager).map(|inner| Pool { inner })
}

/// `r2d2::Pool::get`: a connection of this pool, or r2d2's error where none
/// became free within the pool's timeout. The calling thread waits meanwhile.
#[verifier::external_body]
fn checkout(pool: &Pool) -> (r: Result<PooledConnection, TimedOut>)
    ensures
        r matches Ok(connection) ==> lender(connection) == *pool,
{
    pool.inner.get().map(|connection| PooledConnection { connection })
}

/// `r2d2::Pool::max_size`: the largest number of connections that the pool
/// was built to keep.
#[verifier::external_body]
fn max_size_of(pool: &Pool) -> (n: u32)
    ensures
        n == pool_max_size(*pool),
{
    pool.inner.max_size()
}

/// `r2d2::Pool::clone`: another handle on the same pool.
#[verifier::external_body]
fn clone_pool(pool: &Pool) -> (r: Pool)
    ensures
        r == *pool,
{
    Pool { inner: pool.inner.clone() }
}

/// The `Display` text of an error of r2d2, through `to_string`.
#[verifier::external_body]
fn error_message(error: &TimedOut) -> (text: String)
    ensures
        text@ == error_text(*error),
{
    error.to_string()
}

/// Whether construction waits for the database.
#[derive(Clone, Copy, Debug, PartialEq, Eq, Structural)]
pub enum BuildMode {
    /// The pool is returned once its connections are open; construction
    /// fails where they cannot be opened in time.
    Validating,
    /// The pool is returned at once, whether or not a connection can be
    /// opened. r2d2 starts to open connections in the background as soon as
    /// the pool exists.
    NonValidating,
}

/// Why the pool did not give what was asked of it. Each variant carries what
/// r2d2 had to say.
#[derive(Debug)]
pub enum PoolError {
    /// A validating construction could not open its connections in time.
    Construction(String),
    /// No connection became free, or could be opened, within the timeout.
    Timeout(String),
}

/// An error of the pool as plain values.
pub enum PoolErrorView {
    Construction(Seq<char>),
    Timeout(Seq<char>),
}

impl View for PoolError {
    type V = PoolErrorView;

    open spec fn view(&self) -> PoolErrorView {
        match self {
            PoolError::Construction(text) => PoolErrorView::Construction(text@),
            PoolError::Timeout(text) => PoolErrorView::Timeout(text@),
        }
    }
}

impl PoolError {
    /// What r2d2 had to say.
    pub fn message(&self) -> (text: &str)
        ensures
            self@ == PoolErrorView::Construction(text@) || self@ == PoolErrorView::Timeout(text@),
    {
        match self {
            PoolError::Construction(text) => text.as_str(),
            PoolError::Timeout(text) => text.as_str(),
        }
    }

    /// The same error once more, for another caller.
    pub fn duplicate(&self) -> (r: PoolError)
        ensures
            r@ == self@,
    {
        match self {
            PoolError::Construction(text) => PoolError::Construction(text.clone()),
            PoolError::Timeout(text) => PoolError::Timeout(text.clone()),
        }
    }
}

impl Pool {
    /// The largest number of connections that the pool keeps.
    pub fn max_size(&self) -> (n: u32)
        ensures
            n == self@.max_size,
    {
        max_size_of(self)
    }

    /// Another handle on this pool.
    pub fn share(&self) -> (r: Pool)
        ensures
            r == *self,
    {
        clone_pool(self)
    }
}

/// What the outcome of a validating build means to the caller: the pool as
/// it is, or a construction error with r2d2's text.
pub fn construction_outcome(built: Result<Pool, TimedOut>) -> (r: Result<
    Pool,
    PoolError,
>)
    ensures
        match built {
            Ok(pool) => r is Ok && r->Ok_0 == pool,
            Err(error) => r is Err && r->Err_0@ == PoolErrorView::Construction(error_text(error)),
        },
{
    match built {
        Ok(pool) => Ok(pool),
        Err(error) => Err(PoolError::Construction(error_message(&error))),
    }
}

/// What the outcome of a checkout means to the caller: the connection as it
/// is, or a timeout with r2d2's text.
pub fn checkout_outcome(taken: Result<PooledConnection, TimedOut>) -> (r: Result<
    PooledConnection,
    PoolError,
>)
    ensures
        match taken {
            Ok(connection) => r is Ok && r->Ok_0 == connection,
            Err(error) => r is Err && r->Err_0@ == PoolErrorView::Timeout(error_text(error)),
        },
{
    match taken {
        Ok(connection) => Ok(connection),
        Err(error) => Err(PoolError::Timeout(error_message(&error))),
    }
}

/// Sets a pool up for a configuration, ready to be built: a manager at the
/// connection string, and a builder with room for the configured number of
/// connections.
fn prepare(config: &PoolConfig) -> (r: (PoolBuilder, ConnectionManager<SqliteConnection>))
    ensures
        builder_max_size(r.0) == config@.max_connections,
        builder_min_idle(r.0) is None,
        manager_url(r.1) == config@.connection_string,
{
    let manager = new_manager(config.connection_string().to_owned());
    let builder = with_max_size(new_builder(), config.max_connections());
    (builder, manager)
}

/// Builds the pool of a configuration without waiting for the database: as
/// many connections at most as the configuration allows, each opened at its
/// connection string. The pool is returned whether or not a connection can
/// be opened there.
pub fn init_unchecked(config: &PoolConfig) -> (pool: Pool)
    ensures
        pool@ == (PoolView {
            connection_string: config@.connection_string,
            max_size: config@.max_connections,
        }),
{
    let (builder, manager) = prepare(config);
    build_unchecked(builder, manager)
}

/// Builds the pool of a configuration: as many connections at most as the
/// configuration allows, all opened at its connection string.
///
/// A non-validating build always gives a pool. A validating build gives the
/// pool once its connections are open, and fails with
/// [`PoolError::Construction`] where the database lets the timeout pass.
pub fn init(config: &PoolConfig, mode: BuildMode) -> (r: Result<Pool, PoolError>)
    ensures
        mode == BuildMode::NonValidating ==> r is Ok,
        r matches Ok(pool) ==> pool@ == (PoolView {
            connection_string: config@.connection_string,
            max_size: config@.max_connections,
        }),
        r matches Err(error) ==> error@ is Construction,
{
    match mode {
        BuildMode::NonValidating => Ok(init_unchecked(config)),
        BuildMode::Validating => {
            let (builder, manager) = prepare(config);
            construction_outcome(build(builder, manager))
        },
    }
}

/// Checks a connection out of the pool. The calling thread waits until one
/// is free or the pool's timeout has passed; in the second case the result
/// is [`PoolError::Timeout`].
pub fn get_connection(pool: &Pool) -> (r: Result<PooledConnection, PoolError>)
    ensures
        r matches Ok(connection) ==> lender(connection) == *pool,
        r matches Err(error) ==> error@ is Timeout,
{
    checkout_outcome(checkout(pool))
}

} // verus!
