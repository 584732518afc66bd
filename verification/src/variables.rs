//! The names of the variables that the pool is configured by.
//!
//! The capacity is `MAX_DB_CONNECTIONS`. In single-variable mode the URL is
//! `DATABASE_URL`. In composable mode each part of the URL has a variable of
//! its own, `DATABASE_HOST` and so on, and for each of those a second
//! variable, `DATABASE_HOST_ENV` and so on, may name another variable to be
//! read in its place.

use vstd::prelude::*;
use vstd::string::*;

verus! {

/// The prefix of the variables that hold the parts of the URL.
pub const ENV_PREFIX: &'static str = "DATABASE";

/// The variable that holds the whole URL.
pub const URL_VARIABLE: &'static str = "DATABASE_URL";

/// The variable that holds the capacity of the pool.
pub const MAX_CONNECTIONS_VARIABLE: &'static str = "MAX_DB_CONNECTIONS";

/// The variable of the part `key` under `prefix`: the two joined by `_`.
pub open spec fn part_variable(prefix: Seq<char>, key: Seq<char>) -> Seq<char> {
    prefix + seq!['_'] + key
}

/// The variable that may name another in place of `part_variable`: the same
/// name followed by `_ENV`.
pub open spec fn redirect_variable(prefix: Seq<char>, key: Seq<char>) -> Seq<char> {
    part_variable(prefix, key) + seq!['_', 'E', 'N', 'V']
}

/// The variable to read for a part: the one that the redirect names where
/// the redirect is set, else the part's own.
pub open spec fn variable_to_read(
    prefix: Seq<char>,
    key: Seq<char>,
    redirect: Option<Seq<char>>,
) -> Seq<char> {
    match redirect {
        Some(name) => name,
        None => part_variable(prefix, key),
    }
}

/// The name of the variable that may redirect the part `key`.
pub fn redirect_name(prefix: &str, key: &str) -> (r: String)
    ensures
        r@ == redirect_variable(prefix@, key@),
{
    proof {
        reveal_strlit("_");
        reveal_strlit("_ENV");
    }
    let mut name = prefix.to_owned();
    name.append("_");
    name.append(key);
    name.append("_ENV");
    assert(name@ =~= redirect_variable(prefix@, key@));
    name
}

/// The name of the variable to read for the part `key`, given what the
/// redirect variable holds.
pub fn variable_name(prefix: &str, key: &str, redirect: Option<String>) -> (r: String)
    ensures
        r@ == variable_to_read(
            prefix@,
            key@,
            match redirect {
                Some(name) => Some(name@),
                None => None,
            },
        ),
{
    match redirect {
        Some(name) => name,
        None => {
            proof {
                reveal_strlit("_");
            }
            let mut name = prefix.to_owned();
            name.append("_");
            name.append(key);
            assert(name@ =~= part_variable(prefix@, key@));
            name
        },
    }
}

} // verus!
