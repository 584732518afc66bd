//! A process-wide database connection pool, configured from the environment.
//!
//! The crate separates the decisions from the effects. Reading variables,
//! holding the process-wide slot and waiting on it belong to the program that
//! links this library; everything that is decided from those values is here,
//! with a contract:
//!
//! - [`capacity`] reads the capacity of the pool from its variable;
//! - [`variables`] names the variables to read;
//! - [`url`] puts a connection URL together from fragments, and [`backend`]
//!   holds the fragments that it starts from;
//! - [`config`] resolves the configuration of the pool from both;
//! - [`pool`] builds the pool and checks connections out of it;
//! - [`cell`] is the slot for the one pool of the process, and decides who
//!   constructs it and who waits;
//! - [`global`] runs construction through the slot, from the environment to
//!   the pool;
//! - [`context`] offers the same per type.

pub mod backend;
pub mod capacity;
pub mod cell;
pub mod config;
pub mod context;
pub mod global;
pub mod pool;
pub mod url;
pub mod variables;
