//! From the environment to the one pool of the process.
//!
//! An [`Initializer`] says how a pool comes into being: how its connection
//! string is determined, and whether construction waits for the database.
//! [`Initializer::construct`] is the whole construction, from what the
//! environment holds to a pool. [`get_or_init`] and [`boot`] run it through a
//! [`GlobalPoolCell`], so that it happens once.
//!
//! Nothing here ends the process. A missing URL, a capacity that is no
//! number, a construction that failed and a second boot are mistakes of the
//! deployment or of the program; they come back as a [`Fault`] or an
//! [`InitError`], and the program is expected to end on them.
//!
//! The functions that take a cell expect the caller to hold it alone for the
//! length of the call. A program with several threads keeps the cell behind a
//! lock, or drives it step by step with [`lookup`] and [`finish`] and waits
//! in between.

use crate::cell::{decision, next, BootError, Decision, Event, GlobalPoolCell, Lifecycle};
use crate::config::{
    parsed_url, resolution, resolve, resolve_composed, resolves_to, single_url, ConfigError,
    ConfigErrorView, PoolConfig, PoolConfigView,
};
use crate::pool::{
    init, lender, pool_max_size, pool_url, BuildMode, Pool, PoolError, PoolErrorView, PoolView,
    PooledConnection,
};
use crate::url::{
    candidate, text_of, url_parse, FragmentsView, OverridesView, UrlFragments, UrlOverrides,
};
use vstd::prelude::*;

verus! {

/// What the process environment holds for the pool. `None` stands for a
/// variable that is not set.
pub struct Environment {
    /// `DATABASE_URL`, and the variables that override single fragments.
    pub database: UrlOverrides,
    /// `MAX_DB_CONNECTIONS`.
    pub max_connections: Option<String>,
}

/// The environment as plain values.
pub struct EnvironmentView {
    pub database: OverridesView,
    pub max_connections: Option<Seq<char>>,
}

impl View for Environment {
    type V = EnvironmentView;

    open spec fn view(&self) -> EnvironmentView {
        EnvironmentView { database: self.database@, max_connections: text_of(self.max_connections) }
    }
}

/// How the connection string is determined.
pub enum Resolver {
    /// It is `DATABASE_URL` as it stands, and has to be set.
    Single,
    /// It is put together from the given defaults and the overrides of the
    /// environment, and parsed as a URL.
    Composed(UrlFragments),
}

/// A resolver as plain values.
pub enum ResolverView {
    Single,
    Composed(FragmentsView),
}

impl View for Resolver {
    type V = ResolverView;

    open spec fn view(&self) -> ResolverView {
        match self {
            Resolver::Single => ResolverView::Single,
            Resolver::Composed(defaults) => ResolverView::Composed(defaults@),
        }
    }
}

/// How a pool comes into being.
pub struct Initializer {
    pub resolver: Resolver,
    pub mode: BuildMode,
}

/// Why construction failed.
#[derive(Debug)]
pub enum InitError {
    /// No configuration could be resolved. No connection was attempted.
    Config(ConfigError),
    /// The pool could not be built from the configuration.
    Pool(PoolError),
}

/// A failed construction as plain values.
pub enum InitErrorView {
    Config(ConfigErrorView),
    Pool(PoolErrorView),
}

impl View for InitError {
    type V = InitErrorView;

    open spec fn view(&self) -> InitErrorView {
        match self {
            InitError::Config(e) => InitErrorView::Config(e@),
            InitError::Pool(e) => InitErrorView::Pool(e@),
        }
    }
}

impl InitError {
    /// The same error once more, for another caller.
    pub fn duplicate(&self) -> (r: InitError)
        ensures
            r@ == self@,
    {
        match self {
            InitError::Config(e) => InitError::Config(e.duplicate()),
            InitError::Pool(e) => InitError::Pool(e.duplicate()),
        }
    }
}

/// Why a caller did not get the pool.
#[derive(Debug)]
pub enum Fault {
    /// Construction failed, now or when it was tried. It is not tried again.
    Construction(InitError),
    /// An eager cell was accessed before its boot step had finished.
    NotBooted,
    /// The boot step was run on a cell that had been booted, or accessed,
    /// before.
    AlreadyBooted,
    /// Another caller was told to construct and has not reported yet.
    Busy,
}

/// What one round of the accessor ends with.
pub enum Lookup {
    /// The caller is to construct the pool and hand the outcome to
    /// [`finish`].
    Construct,
    /// Another caller is constructing: wait for it, then look again.
    Wait,
    /// The pool.
    Found(Pool),
    /// The caller does not get a pool, now or later.
    Refused(Fault),
}

/// The configuration that `resolver` resolves from `env`.
pub open spec fn expected_config(resolver: ResolverView, env: EnvironmentView) -> Result<
    PoolConfigView,
    ConfigErrorView,
> {
    match resolver {
        ResolverView::Single => resolution(single_url(env.database.url), env.max_connections),
        ResolverView::Composed(defaults) => resolution(
            parsed_url(url_parse(candidate(defaults, env.database))),
            env.max_connections,
        ),
    }
}

/// `outcome` is what constructing a pool for the configuration `expected`
/// can end with: the error of the resolver where there is no configuration;
/// else a pool with the values of the configuration or, in a validating
/// build only, a construction error.
pub open spec fn constructed_from(
    expected: Result<PoolConfigView, ConfigErrorView>,
    mode: BuildMode,
    outcome: Result<Pool, InitError>,
) -> bool {
    match expected {
        Err(e) => outcome is Err && outcome->Err_0@ == InitErrorView::Config(e),
        Ok(config) => match outcome {
            Ok(pool) => pool@ == (PoolView {
                connection_string: config.connection_string,
                max_size: config.max_connections,
            }),
            Err(error) => mode == BuildMode::Validating && error@ is Pool && error@->Pool_0
                is Construction,
        },
    }
}

/// The state of a cell after the construction that ended with `outcome`.
pub open spec fn filled_with(outcome: Result<Pool, InitError>) -> Lifecycle<Pool, InitError> {
    match outcome {
        Ok(pool) => Lifecycle::Ready(pool),
        Err(error) => Lifecycle::Failed(error),
    }
}

/// `state` is that of a cell filled by constructing a pool for the
/// configuration `expected`.
pub open spec fn filled_from(
    expected: Result<PoolConfigView, ConfigErrorView>,
    mode: BuildMode,
    state: Lifecycle<Pool, InitError>,
) -> bool {
    match state {
        Lifecycle::Ready(pool) => constructed_from(expected, mode, Ok(pool)),
        Lifecycle::Failed(error) => constructed_from(expected, mode, Err(error)),
        _ => false,
    }
}

/// `r` hands a caller what a filled cell holds: the pool itself, or an error
/// that reads as the one in the cell.
pub open spec fn hands_out(state: Lifecycle<Pool, InitError>, r: Result<Pool, Fault>) -> bool {
    match state {
        Lifecycle::Ready(pool) => r == Ok::<Pool, Fault>(pool),
        Lifecycle::Failed(error) => r matches Err(Fault::Construction(e)) && e@ == error@,
        _ => false,
    }
}

fn borrowed(value: &Option<String>) -> (r: Option<&str>)
    ensures
        crate::config::slice_text(r) == text_of(*value),
{
    match value {
        Some(s) => Some(s.as_str()),
        None => None,
    }
}

fn owned(value: &Option<String>) -> (r: Option<String>)
    ensures
        text_of(r) == text_of(*value),
{
    match value {
        Some(s) => Some(s.clone()),
        None => None,
    }
}

impl Initializer {
    /// Resolves the configuration of the pool from the environment.
    pub fn resolve(&self, env: &Environment) -> (r: Result<PoolConfig, ConfigError>)
        ensures
            resolves_to(r, expected_config(self.resolver@, env@)),
    {
        let raw_max = borrowed(&env.max_connections);
        match &self.resolver {
            Resolver::Single => {
                resolve(owned(&env.database.url), raw_max)
            },
            Resolver::Composed(defaults) => resolve_composed(defaults, &env.database, raw_max),
        }
    }

    /// Constructs the pool: resolves the configuration, then builds the pool
    /// from it. Where no configuration can be resolved, nothing is built and
    /// no connection is attempted.
    pub fn construct(&self, env: &Environment) -> (r: Result<Pool, InitError>)
        ensures
            constructed_from(expected_config(self.resolver@, env@), self.mode, r),
    {
        match self.resolve(env) {
            Err(e) => Err(InitError::Config(e)),
            Ok(config) => match init(&config, self.mode) {
                Ok(pool) => Ok(pool),
                Err(e) => Err(InitError::Pool(e)),
            },
        }
    }
}

/// One round of the accessor on `cell`: what the cell decides, together with
/// the pool or the error where the cell holds one.
pub fn lookup(cell: &mut GlobalPoolCell<Pool, InitError>) -> (r: Lookup)
    ensures
        final(cell).strategy_of() == old(cell).strategy_of(),
        final(cell).state() == next(old(cell).strategy_of(), old(cell).state(), Event::Access),
        match decision(old(cell).strategy_of(), old(cell).state()) {
            Decision::Initialize => r is Construct,
            Decision::Wait => r is Wait,
            Decision::Ready => r is Found && old(cell).state() == Lifecycle::<
                Pool,
                InitError,
            >::Ready(r->Found_0),
            Decision::Failed => r matches Lookup::Refused(Fault::Construction(e)) && old(
                cell,
            ).state() is Failed && e@ == old(cell).state()->Failed_0@,
            Decision::NotBooted => r matches Lookup::Refused(Fault::NotBooted),
        },
{
    match cell.access() {
        Decision::Initialize => Lookup::Construct,
        Decision::Wait => Lookup::Wait,
        Decision::NotBooted => Lookup::Refused(Fault::NotBooted),
        Decision::Ready => match cell.get() {
            Some(pool) => Lookup::Found(pool.share()),
            None => Lookup::Wait,
        },
        Decision::Failed => match cell.failure() {
            Some(error) => Lookup::Refused(Fault::Construction(error.duplicate())),
            None => Lookup::Wait,
        },
    }
}

/// Records the outcome of the construction that `cell` asked for, and hands
/// it to the caller that constructed.
pub fn finish(cell: &mut GlobalPoolCell<Pool, InitError>, outcome: Result<Pool, InitError>) -> (r:
    Result<Pool, Fault>)
    requires
        old(cell).state() is Initializing,
    ensures
        final(cell).strategy_of() == old(cell).strategy_of(),
        final(cell).state() == filled_with(outcome),
        hands_out(final(cell).state(), r),
{
    let r = match &outcome {
        Ok(pool) => Ok(pool.share()),
        Err(error) => Err(Fault::Construction(error.duplicate())),
    };
    cell.complete(outcome);
    r
}

/// The accessor of a cell that the caller holds alone: the pool of the cell,
/// constructed now if the cell is lazy and empty.
///
/// A ready cell gives its pool and a failed cell its error, both without
/// constructing anything. An empty lazy cell is filled with the outcome of
/// `initializer.construct(env)`, pool or error, and gives that. An eager cell
/// that is not booted gives [`Fault::NotBooted`], and a cell that another
/// caller left under construction gives [`Fault::Busy`]; both stay as they
/// are.
pub fn get_or_init(
    cell: &mut GlobalPoolCell<Pool, InitError>,
    initializer: &Initializer,
    env: &Environment,
) -> (r: Result<Pool, Fault>)
    ensures
        final(cell).strategy_of() == old(cell).strategy_of(),
        match decision(old(cell).strategy_of(), old(cell).state()) {
            Decision::Initialize => filled_from(
                expected_config(initializer.resolver@, env@),
                initializer.mode,
                final(cell).state(),
            ),
            _ => final(cell).state() == old(cell).state(),
        },
        match decision(old(cell).strategy_of(), old(cell).state()) {
            Decision::Wait => r matches Err(Fault::Busy),
            Decision::NotBooted => r matches Err(Fault::NotBooted),
            _ => hands_out(final(cell).state(), r),
        },
{
    match lookup(cell) {
        Lookup::Found(pool) => Ok(pool),
        Lookup::Refused(fault) => Err(fault),
        Lookup::Wait => Err(Fault::Busy),
        Lookup::Construct => {
            let outcome = initializer.construct(env);
            finish(cell, outcome)
        },
    }
}

/// The boot step of a cell that the caller holds alone. An empty cell is
/// filled with the outcome of `initializer.construct(env)`; the step fails
/// with the error where construction failed. Any other cell stays as it is,
/// and the step fails with [`Fault::AlreadyBooted`].
pub fn boot(
    cell: &mut GlobalPoolCell<Pool, InitError>,
    initializer: &Initializer,
    env: &Environment,
) -> (r: Result<(), Fault>)
    ensures
        final(cell).strategy_of() == old(cell).strategy_of(),
        if old(cell).state() is Empty {
            &&& filled_from(
                expected_config(initializer.resolver@, env@),
                initializer.mode,
                final(cell).state(),
            )
            &&& match final(cell).state() {
                Lifecycle::Ready(_) => r is Ok,
                Lifecycle::Failed(error) => r matches Err(Fault::Construction(e)) && e@ == error@,
                _ => false,
            }
        } else {
            &&& final(cell).state() == old(cell).state()
            &&& r matches Err(Fault::AlreadyBooted)
        },
{
    match cell.begin_boot() {
        Err(BootError::AlreadyBooted) => Err(Fault::AlreadyBooted),
        Ok(()) => {
            let outcome = initializer.construct(env);
            match finish(cell, outcome) {
                Ok(_) => Ok(()),
                Err(fault) => Err(fault),
            }
        },
    }
}

/// A valid environment gives its pool: where `resolver` resolves a
/// configuration from `env`, a non-validating construction does not fail, and
/// every connection that the pool lends is one to the resolved connection
/// string, out of a pool with the resolved capacity.
pub proof fn lemma_valid_environment_gives_its_pool(
    resolver: ResolverView,
    env: EnvironmentView,
    outcome: Result<Pool, InitError>,
    connection: PooledConnection,
)
    requires
        expected_config(resolver, env) is Ok,
        constructed_from(expected_config(resolver, env), BuildMode::NonValidating, outcome),
        outcome matches Ok(pool) ==> lender(connection) == pool,
    ensures
        outcome is Ok,
        pool_url(lender(connection)) == expected_config(resolver, env)->Ok_0.connection_string,
        pool_max_size(lender(connection)) == expected_config(resolver, env)->Ok_0.max_connections,
{
}

/// An environment that resolves to no configuration gives no pool:
/// construction ends with the error of the resolver, in either build mode.
pub proof fn lemma_bad_environment_gives_no_pool(
    resolver: ResolverView,
    env: EnvironmentView,
    mode: BuildMode,
    outcome: Result<Pool, InitError>,
)
    requires
        expected_config(resolver, env) is Err,
        constructed_from(expected_config(resolver, env), mode, outcome),
    ensures
        outcome is Err,
        outcome->Err_0@ == InitErrorView::Config(expected_config(resolver, env)->Err_0),
{
}

/// Two accesses to one cell see one pool: a ready cell hands out the pool it
/// holds, and an access leaves a ready cell as it is.
pub proof fn lemma_accesses_see_one_pool(
    strategy: crate::cell::Strategy,
    state: Lifecycle<Pool, InitError>,
    first: Result<Pool, Fault>,
    second: Result<Pool, Fault>,
)
    requires
        state is Ready,
        hands_out(state, first),
        hands_out(next(strategy, state, Event::Access), second),
    ensures
        first is Ok,
        second is Ok,
        first->Ok_0 == second->Ok_0,
{
}

/// Constructing through a cold lazy cell is two steps of the cell: the access
/// that is told to construct, and the report of the outcome.
pub proof fn lemma_construction_is_access_then_report(outcome: Result<Pool, InitError>)
    ensures
        filled_with(outcome) == next(
            crate::cell::Strategy::Lazy,
            next(
                crate::cell::Strategy::Lazy,
                Lifecycle::<Pool, InitError>::Empty,
                Event::Access,
            ),
            Event::Completed(outcome),
        ),
        decision(crate::cell::Strategy::Lazy, Lifecycle::<Pool, InitError>::Empty)
            == Decision::Initialize,
{
}

} // verus!
