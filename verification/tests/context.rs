use diesel::connection::SimpleConnection;
use diesel_connection::config::ConfigError;
use diesel_connection::backend::defaults;
use diesel_connection::context::{create_pool_with, ConnectionInfo, ConnectionPool};
use diesel_connection::global::{Environment, Initializer, Resolver};
use diesel_connection::pool::{get_connection, BuildMode};
use diesel_connection::url::UrlOverrides;
use std::time::{SystemTime, UNIX_EPOCH};

fn environment() -> Environment {
    Environment {
        database: UrlOverrides { url: None, host: None, port: None, path: None, userinfo: None },
        max_connections: None,
    }
}

#[test]
fn the_pool_type_names_the_sqlite_defaults() {
    let defaults = ConnectionPool::defaults();
    assert_eq!(defaults.scheme, "sqlite");
    assert_eq!(defaults.userinfo, "");
    assert_eq!(defaults.host, ".");
    assert_eq!(defaults.port, "");
    assert_eq!(defaults.path, "/db.sqlite");
    assert_eq!(defaults.query, "");
}

fn scratch(name: &str) -> String {
    let nanos = SystemTime::now().duration_since(UNIX_EPOCH).unwrap().as_nanos();
    format!("sqlite:///tmp/diesel_connection_{}_{}.sqlite", name, nanos)
}

#[test]
fn the_defaults_resolve_to_the_default_database() {
    let initializer = Initializer {
        resolver: Resolver::Composed(ConnectionPool::defaults()),
        mode: BuildMode::NonValidating,
    };
    let config = initializer.resolve(&environment()).unwrap();
    assert_eq!(config.connection_string(), "sqlite://./db.sqlite");
    assert_eq!(config.max_connections(), 20);
}

#[test]
fn create_pool_builds_with_the_default_capacity() {
    let mut env = environment();
    env.database.url = Some(scratch("default_capacity"));
    let pool = ConnectionPool::create_pool(&env).unwrap();
    assert_eq!(pool.max_size(), 20);
}

#[test]
fn create_pool_takes_the_capacity_of_the_environment() {
    let mut env = environment();
    env.database.url = Some(scratch("capacity"));
    env.max_connections = Some(String::from("3"));
    assert_eq!(ConnectionPool::create_pool(&env).unwrap().max_size(), 3);
}

#[test]
fn create_pool_opens_where_the_environment_points() {
    let mut env = environment();
    env.database.url = Some(scratch("context"));
    env.max_connections = Some(String::from("1"));
    let pool = ConnectionPool::create_pool(&env).unwrap();
    let mut connection = get_connection(&pool).unwrap();
    connection.connection.batch_execute("CREATE TABLE t (id INTEGER);").unwrap();
}

#[test]
fn create_pool_builds_nothing_for_a_bad_environment() {
    let mut env = environment();
    env.database.url = Some(String::from("no url"));
    assert_eq!(
        ConnectionPool::create_pool(&env).err(),
        Some(ConfigError::ParseError(String::from("relative URL without a base")))
    );
    let mut env = environment();
    env.max_connections = Some(String::from("0"));
    assert_eq!(ConnectionPool::create_pool(&env).err(), Some(ConfigError::ZeroMaxConnections));
    let mut env = environment();
    env.max_connections = Some(String::from("ten"));
    assert_eq!(ConnectionPool::create_pool(&env).err(), Some(ConfigError::InvalidMaxConnections));
}

#[test]
fn create_pool_with_builds_for_the_given_defaults() {
    let mut given = defaults();
    given.path = String::from("/tmp/diesel_connection_given.sqlite");
    let mut env = environment();
    env.max_connections = Some(String::from("4"));
    let pool = create_pool_with(given, &env).unwrap();
    assert_eq!(pool.max_size(), 4);
    let mut env = environment();
    env.database.url = Some(scratch("given_defaults"));
    let pool = create_pool_with(defaults(), &env).unwrap();
    assert!(get_connection(&pool).is_ok());
    let mut env = environment();
    env.database.port = Some(String::from("-1"));
    assert_eq!(
        create_pool_with(defaults(), &env).err(),
        Some(ConfigError::ParseError(String::from("invalid port number")))
    );
}
