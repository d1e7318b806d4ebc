//! What the storage pool's connection manager decides for itself: whether
//! a database name means an in-memory database or a file path. Opening the
//! connections is the pool's own work, outside the library.

use vstd::prelude::*;
use vstd::string::StringSliceAdditionalSpecFns;

verus! {

/// How the pool opens its connections: in memory, or against a file.
pub struct SqliteConnectionManager {
    pub in_memory: bool,
    pub path: Option<String>,
}

/// The name that selects an in-memory database.
pub open spec fn spec_memory_name() -> Seq<u8> {
    ":memory:".spec_bytes()
}

impl SqliteConnectionManager {
    /// Reads a database name: the in-memory marker, or a file path.
    pub fn new(database: &str) -> (m: SqliteConnectionManager)
        ensures
            m.in_memory == (database.spec_bytes() == spec_memory_name()),
            m.in_memory ==> m.path is None,
            !m.in_memory ==> (m.path matches Some(p) && p@ == database@),
    {
        if bytes_eq(database.as_bytes(), ":memory:".as_bytes()) {
            SqliteConnectionManager { in_memory: true, path: None }
        } else {
            SqliteConnectionManager { in_memory: false, path: Some(database.to_owned()) }
        }
    }
}

/// Whether two byte strings hold the same bytes.
fn bytes_eq(a: &[u8], b: &[u8]) -> (eq: bool)
    ensures
        eq == (a@ == b@),
{
    if a.len() != b.len() {
        return false;
    }
    let mut i: usize = 0;
    while i < a.len()
        invariant
            i <= a@.len(),
            a@.len() == b@.len(),
            forall|j: int| 0 <= j < i ==> a@[j] == b@[j],
        decreases a@.len() - i,
    {
        if a[i] != b[i] {
            return false;
        }
        i += 1;
    }
    proof {
        assert(a@ =~= b@);
    }
    true
}

} // verus!
