//! The engine's configuration for a pooled database connection.

use vstd::prelude::*;
use crate::boot::address;
use crate::text::{push_decimal, push_str};

verus! {

/// The whole configuration.
#[derive(Debug)]
pub struct Configure {
    pub server: Server,
    pub database: Database,
    pub profile: String,
}

/// Where the server listens and how many workers it runs.
#[derive(Debug)]
pub struct Server {
    pub ip: String,
    pub port: u32,
    pub thread_per_worker: u32,
    pub workers: u32,
}

/// The database to connect to; the pool holds `max` connections, 15 where
/// none is given.
#[derive(Debug)]
pub struct Database {
    pub max: Option<usize>,
    pub host: Option<String>,
    pub port: Option<u16>,
    pub user: Option<String>,
    pub password: Option<String>,
    pub dbname: Option<String>,
}

/// The size of the connection pool where none is configured.
pub const DB_DEFAULT_MAX_CONNECTS: usize = 15;

impl Database {
    /// The size of the connection pool: the configured one, or 15.
    pub fn pool_size(&self) -> (r: usize)
        ensures
            r == match self.max {
                Some(m) => m,
                None => DB_DEFAULT_MAX_CONNECTS,
            },
    {
        match self.max {
            Some(m) => m,
            None => DB_DEFAULT_MAX_CONNECTS,
        }
    }
}

impl Server {
    /// The address the server listens on: `ip:port`.
    pub fn addr(&self) -> (r: String)
        ensures
            r@ == address(self.ip@, self.port as nat),
    {
        let mut s = self.ip.clone();
        push_str(&mut s, ":");
        push_decimal(&mut s, self.port as u64);
        s
    }
}

} // verus!
