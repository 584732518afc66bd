use diesel::connection::SimpleConnection;
use diesel_connection::cell::{GlobalPoolCell, Strategy};
use diesel_connection::config::ConfigError;
use diesel_connection::global::{
    boot, finish, get_or_init, lookup, Environment, Fault, InitError, Initializer, Lookup,
    Resolver,
};
use diesel_connection::pool::{get_connection, BuildMode, Pool, PoolError};
use diesel_connection::url::{UrlFragments, UrlOverrides};

fn environment(url: Option<&str>, max: Option<&str>) -> Environment {
    Environment {
        database: UrlOverrides {
            url: url.map(String::from),
            host: None,
            port: None,
            path: None,
            userinfo: None,
        },
        max_connections: max.map(String::from),
    }
}

fn network(scheme: &str, port: &str) -> UrlFragments {
    UrlFragments {
        scheme: String::from(scheme),
        userinfo: String::new(),
        host: String::from("localhost"),
        port: String::from(port),
        path: String::new(),
        query: String::new(),
    }
}

fn single(mode: BuildMode) -> Initializer {
    Initializer { resolver: Resolver::Single, mode }
}

fn cold(strategy: Strategy) -> GlobalPoolCell<Pool, InitError> {
    GlobalPoolCell::new(strategy)
}

#[test]
fn the_environment_resolves_in_single_variable_mode() {
    let config = single(BuildMode::NonValidating)
        .resolve(&environment(Some(":memory:"), Some("6")))
        .unwrap();
    assert_eq!(config.connection_string(), ":memory:");
    assert_eq!(config.max_connections(), 6);
    let missing = single(BuildMode::NonValidating).resolve(&environment(None, Some("6")));
    assert_eq!(missing.err(), Some(ConfigError::MissingConfig));
}

#[test]
fn the_environment_resolves_in_composable_mode() {
    let initializer = Initializer {
        resolver: Resolver::Composed(network("mysql", "3306")),
        mode: BuildMode::NonValidating,
    };
    let mut env = environment(None, None);
    env.database.host = Some(String::from("db"));
    let config = initializer.resolve(&env).unwrap();
    assert_eq!(config.connection_string(), "mysql://db:3306");
    assert_eq!(config.max_connections(), 20);
    env.database.port = Some(String::from("none"));
    assert_eq!(
        initializer.resolve(&env).err(),
        Some(ConfigError::ParseError(String::from("invalid port number")))
    );
}

#[test]
fn construction_builds_the_pool_of_the_environment() {
    let pool = single(BuildMode::Validating)
        .construct(&environment(Some(":memory:"), Some("3")))
        .unwrap();
    assert_eq!(pool.max_size(), 3);
    let mut connection = get_connection(&pool).unwrap();
    connection.connection.batch_execute("SELECT 1;").unwrap();
    let pool = single(BuildMode::NonValidating).construct(&environment(Some(":memory:"), None));
    assert_eq!(pool.unwrap().max_size(), 20);
}

#[test]
fn construction_fails_on_a_bad_environment_before_anything_is_built() {
    let initializer = single(BuildMode::Validating);
    assert!(matches!(
        initializer.construct(&environment(None, None)),
        Err(InitError::Config(ConfigError::MissingConfig))
    ));
    assert!(matches!(
        initializer.construct(&environment(Some(":memory:"), Some("0"))),
        Err(InitError::Config(ConfigError::ZeroMaxConnections))
    ));
    assert!(matches!(
        initializer.construct(&environment(Some(":memory:"), Some("lots"))),
        Err(InitError::Config(ConfigError::InvalidMaxConnections))
    ));
    let composed = Initializer {
        resolver: Resolver::Composed(network("postgresql", "5432")),
        mode: BuildMode::Validating,
    };
    assert!(matches!(
        composed.construct(&environment(Some("not a url"), None)),
        Err(InitError::Config(ConfigError::ParseError(reason)))
            if reason == "relative URL without a base"
    ));
}

#[test]
fn a_lazy_cell_constructs_on_first_use_and_then_hands_out_the_same_pool() {
    let mut cell = cold(Strategy::Lazy);
    let initializer = single(BuildMode::Validating);
    let first = get_or_init(&mut cell, &initializer, &environment(Some(":memory:"), Some("1")));
    let first = first.unwrap();
    assert_eq!(first.max_size(), 1);
    let later = get_or_init(&mut cell, &initializer, &environment(Some(":memory:"), Some("9")));
    let later = later.unwrap();
    assert_eq!(later.max_size(), 1);
    assert_eq!(cell.get().unwrap().max_size(), 1);
    {
        let mut through_first = get_connection(&first).unwrap();
        through_first.connection.batch_execute("CREATE TABLE shared (id INTEGER);").unwrap();
    }
    let mut through_later = get_connection(&later).unwrap();
    through_later.connection.batch_execute("INSERT INTO shared VALUES (1);").unwrap();
}

#[test]
fn a_later_environment_does_not_change_a_ready_cell() {
    let mut cell = cold(Strategy::Lazy);
    let initializer = single(BuildMode::NonValidating);
    assert!(get_or_init(&mut cell, &initializer, &environment(Some(":memory:"), Some("2"))).is_ok());
    let again = get_or_init(&mut cell, &initializer, &environment(None, Some("0")));
    assert_eq!(again.unwrap().max_size(), 2);
}

#[test]
fn a_failed_construction_is_handed_to_every_later_caller() {
    let mut cell = cold(Strategy::Lazy);
    let initializer = single(BuildMode::NonValidating);
    assert!(matches!(
        get_or_init(&mut cell, &initializer, &environment(None, None)),
        Err(Fault::Construction(InitError::Config(ConfigError::MissingConfig)))
    ));
    for _ in 0..3 {
        assert!(matches!(
            get_or_init(&mut cell, &initializer, &environment(Some(":memory:"), None)),
            Err(Fault::Construction(InitError::Config(ConfigError::MissingConfig)))
        ));
    }
    assert!(cell.get().is_none());
    assert!(matches!(cell.failure(), Some(InitError::Config(ConfigError::MissingConfig))));
}

#[test]
fn an_eager_cell_is_filled_by_its_boot_and_by_nothing_else() {
    let mut cell = cold(Strategy::Eager);
    let initializer = single(BuildMode::Validating);
    let env = environment(Some(":memory:"), Some("2"));
    assert!(matches!(get_or_init(&mut cell, &initializer, &env), Err(Fault::NotBooted)));
    assert!(cell.get().is_none());
    assert!(boot(&mut cell, &initializer, &env).is_ok());
    assert_eq!(get_or_init(&mut cell, &initializer, &env).unwrap().max_size(), 2);
}

#[test]
fn a_second_boot_is_a_fault_and_leaves_the_pool_alone() {
    let mut cell = cold(Strategy::Eager);
    let initializer = single(BuildMode::Validating);
    assert!(boot(&mut cell, &initializer, &environment(Some(":memory:"), Some("2"))).is_ok());
    assert!(matches!(
        boot(&mut cell, &initializer, &environment(Some(":memory:"), Some("5"))),
        Err(Fault::AlreadyBooted)
    ));
    assert_eq!(cell.get().unwrap().max_size(), 2);
}

#[test]
fn a_boot_that_fails_says_why_and_is_not_repeated() {
    let mut cell = cold(Strategy::Eager);
    let initializer = single(BuildMode::Validating);
    assert!(matches!(
        boot(&mut cell, &initializer, &environment(None, None)),
        Err(Fault::Construction(InitError::Config(ConfigError::MissingConfig)))
    ));
    assert!(matches!(
        boot(&mut cell, &initializer, &environment(Some(":memory:"), None)),
        Err(Fault::AlreadyBooted)
    ));
    assert!(matches!(
        get_or_init(&mut cell, &initializer, &environment(Some(":memory:"), None)),
        Err(Fault::Construction(InitError::Config(ConfigError::MissingConfig)))
    ));
}

#[test]
fn the_rounds_of_the_accessor_tell_one_caller_to_construct() {
    let mut cell = cold(Strategy::Lazy);
    assert!(matches!(lookup(&mut cell), Lookup::Construct));
    assert!(matches!(lookup(&mut cell), Lookup::Wait));
    assert!(matches!(lookup(&mut cell), Lookup::Wait));
    let initializer = single(BuildMode::NonValidating);
    assert!(matches!(
        get_or_init(&mut cell, &initializer, &environment(Some(":memory:"), None)),
        Err(Fault::Busy)
    ));
    assert!(cell.is_initializing());
    let outcome = initializer.construct(&environment(Some(":memory:"), Some("4")));
    assert_eq!(finish(&mut cell, outcome).unwrap().max_size(), 4);
    match lookup(&mut cell) {
        Lookup::Found(pool) => assert_eq!(pool.max_size(), 4),
        _ => panic!("expected the pool"),
    }
}

#[test]
fn a_reported_failure_is_what_the_rounds_hand_out() {
    let mut cell = cold(Strategy::Lazy);
    assert!(matches!(lookup(&mut cell), Lookup::Construct));
    let outcome = Err(InitError::Pool(PoolError::Construction(String::from("no database"))));
    match finish(&mut cell, outcome) {
        Err(Fault::Construction(InitError::Pool(PoolError::Construction(text)))) => {
            assert_eq!(text, "no database")
        }
        _ => panic!("expected the construction error"),
    }
    match lookup(&mut cell) {
        Lookup::Refused(Fault::Construction(InitError::Pool(error))) => {
            assert_eq!(error.message(), "no database")
        }
        _ => panic!("expected the construction error"),
    }
}

#[test]
fn an_error_of_construction_can_be_duplicated() {
    let error = InitError::Pool(PoolError::Construction(String::from("late")));
    assert!(matches!(
        error.duplicate(),
        InitError::Pool(PoolError::Construction(text)) if text == "late"
    ));
    let error = InitError::Config(ConfigError::ParseError(String::from("empty host")));
    assert!(matches!(
        error.duplicate(),
        InitError::Config(ConfigError::ParseError(reason)) if reason == "empty host"
    ));
}
