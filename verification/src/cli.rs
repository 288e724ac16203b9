//! Configuration values and helpers for the process around the library.

use vstd::prelude::*;

verus! {

/// Connection parameters of the backing Postgres database, as plain
/// values; the surrounding application reads them from its command line or
/// environment and opens the connection itself.
#[derive(Debug, Clone)]
pub struct PgArgs {
    pub pg_host: String,
    pub pg_port: u16,
    pub database: String,
    pub password: String,
    pub username: String,
}

/// The first `len` characters of `s`, or all of `s` when it is shorter.
pub open spec fn spec_truncated(s: Seq<char>, len: int) -> Seq<char> {
    if len <= s.len() {
        s.take(len)
    } else {
        s
    }
}

/// Shortens `val` to at most `len` characters (not bytes), for display
/// purposes such as abbreviating a commit hash.
pub fn truncate(val: &str, len: usize) -> (r: &str)
    ensures
        r@ == spec_truncated(val@, len as int),
{
    let n = val.unicode_len();
    let end = if len < n {
        len
    } else {
        n
    };
    let r = val.substring_char(0, end);
    proof {
        assert(r@ =~= spec_truncated(val@, len as int));
    }
    r
}

} // verus!
