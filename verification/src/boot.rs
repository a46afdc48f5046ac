//! The engine's configuration: server, database and log settings.

use vstd::prelude::*;
use crate::text::{decimal, push_decimal, push_str};

verus! {

/// The whole configuration.
#[derive(Debug)]
pub struct Configure {
    pub server: Server,
    pub database: Database,
    pub log: Log,
    pub profile: String,
}

/// Where the server listens and how many workers it runs.
#[derive(Debug)]
pub struct Server {
    pub ip: String,
    pub port: u32,
    pub thread_per_worker: u32,
    pub workers: u32,
}

/// The database to connect to and the size of the connection pool.
#[derive(Debug)]
pub struct Database {
    pub url: String,
    pub min: u32,
    pub max: u32,
}

/// Where the log is written and from which level on.
#[derive(Debug)]
pub struct Log {
    pub file: String,
    pub level: String,
}

/// The address `ip:port`.
pub open spec fn address(ip: Seq<char>, port: nat) -> Seq<char> {
    ip + ":"@ + decimal(port)
}

impl Server {
    /// The address the server listens on: `ip:port`.
    pub fn addr(&self) -> (r: String)
        ensures
            r@ == address(self.ip@, self.port as nat),
    {
        let mut s = self.ip.clone();
        push_str(&mut s, ":");
        push_decimal(&mut s, self.port as u64);
        s
    }
}

} // verus!
