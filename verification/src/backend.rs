//! What is fixed by the backend. The pool holds SQLite connections, so the
//! URL that a service has where the environment says nothing is that of a
//! SQLite database: the file `db.sqlite` in the working directory.

use crate::url::{composed, FragmentsView, UrlFragments};
use vstd::prelude::*;
use vstd::string::*;

verus! {

/// The fragments of the default URL.
pub open spec fn default_fragments() -> FragmentsView {
    FragmentsView {
        scheme: "sqlite"@,
        userinfo: ""@,
        host: "."@,
        port: ""@,
        path: "/db.sqlite"@,
        query: ""@,
    }
}

/// The fragments of the default URL.
pub fn defaults() -> (r: UrlFragments)
    ensures
        r@ == default_fragments(),
{
    UrlFragments {
        scheme: "sqlite".to_owned(),
        userinfo: "".to_owned(),
        host: ".".to_owned(),
        port: "".to_owned(),
        path: "/db.sqlite".to_owned(),
        query: "".to_owned(),
    }
}

/// The defaults spell `sqlite://.:/db.sqlite`, which the URL parser reads as
/// the file `./db.sqlite`.
pub proof fn lemma_default_url()
    ensures
        composed(default_fragments()) == "sqlite://.:/db.sqlite"@,
{
    reveal_strlit("");
    reveal_strlit(".");
    reveal_strlit("sqlite");
    reveal_strlit("/db.sqlite");
    reveal_strlit("sqlite://.:/db.sqlite");
    assert(composed(default_fragments()) =~= "sqlite://.:/db.sqlite"@);
}

} // verus!
