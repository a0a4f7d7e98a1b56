//! How a backend is reached: the configuration of the connection pool.

use crate::model::same_text;
use vstd::prelude::*;

verus! {

/// The scheme that the URL of a database file begins with.
pub const SQLITE_SCHEME: &'static str = "sqlite://";

/// The database that is used where none is configured.
pub const DEFAULT_DATABASE_URL: &'static str = "sqlite:///tmp/arm-hypervisor.db";

/// The number of connections that is used where none is configured.
pub const DEFAULT_MAX_CONNECTIONS: u32 = 10;

/// Where the database is, and how many connections the pool may hold.
#[derive(Debug, PartialEq, Eq)]
pub struct PoolConfig {
    pub database_url: String,
    pub max_connections: u32,
}

impl Default for PoolConfig {
    fn default() -> (config: Self)
        ensures
            config.database_url@ == DEFAULT_DATABASE_URL@,
            config.max_connections == DEFAULT_MAX_CONNECTIONS,
    {
        PoolConfig {
            database_url: DEFAULT_DATABASE_URL.to_owned(),
            max_connections: DEFAULT_MAX_CONNECTIONS,
        }
    }
}

/// The path of the file that a database URL names: what follows the scheme.
/// A URL of another scheme names no file, and the path is empty.
pub open spec fn file_path(url: Seq<char>) -> Seq<char> {
    if SQLITE_SCHEME@.is_prefix_of(url) {
        url.skip(SQLITE_SCHEME@.len() as int)
    } else {
        Seq::empty()
    }
}

impl PoolConfig {
    /// The path of the database file, whose directory has to exist before
    /// the pool connects.
    pub fn database_path(&self) -> (path: &str)
        ensures
            path@ == file_path(self.database_url@),
    {
        let url = self.database_url.as_str();
        let scheme_len = SQLITE_SCHEME.unicode_len();
        let len = url.unicode_len();
        proof {
            reveal_strlit("");
        }
        if len < scheme_len {
            return "";
        }
        if same_text(url.substring_char(0, scheme_len), SQLITE_SCHEME) {
            url.substring_char(scheme_len, len)
        } else {
            ""
        }
    }
}

} // verus!
