//! Runtime settings of the lobby server: where it listens and where its
//! database lives. Missing settings fall back to the defaults below, so a
//! fresh checkout runs against localhost with no file at all. Reading the
//! file and the command line belongs to the caller.

use vstd::prelude::*;

verus! {

/// The `[server]` table.
#[derive(Debug)]
pub struct ServerSection {
    pub bind_ip: String,
    pub port: u16,
    /// Kept so that a written file round-trips; the log formatter decides
    /// on timestamps by itself.
    pub show_timestamp: bool,
}

/// The `[database]` table.
#[derive(Debug)]
pub struct DatabaseSection {
    /// Path of the SQLite file, created on first run if missing.
    pub path: String,
}

/// The whole lobby configuration.
#[derive(Debug)]
pub struct Config {
    pub server: ServerSection,
    pub database: DatabaseSection,
}

/// Command-line overrides; `None` leaves the configured value.
#[derive(Debug)]
pub struct LaunchArgs {
    pub ip: Option<String>,
    pub port: Option<u16>,
    pub db_path: Option<String>,
    /// Path of the TOML file to read.
    pub config: String,
}

impl Default for ServerSection {
    /// Listen on 127.0.0.1:54994, with timestamps.
    fn default() -> (r: Self)
        ensures
            r.bind_ip@ == "127.0.0.1"@,
            r.port == 54994,
            r.show_timestamp,
    {
        ServerSection { bind_ip: "127.0.0.1".to_owned(), port: 54994, show_timestamp: true }
    }
}

impl Default for DatabaseSection {
    /// The database at `./data/garlemald.db`.
    fn default() -> (r: Self)
        ensures
            r.path@ == "./data/garlemald.db"@,
    {
        DatabaseSection { path: "./data/garlemald.db".to_owned() }
    }
}

impl Default for Config {
    /// Both tables at their defaults.
    fn default() -> (r: Self)
        ensures
            r.server.bind_ip@ == "127.0.0.1"@,
            r.server.port == 54994,
            r.server.show_timestamp,
            r.database.path@ == "./data/garlemald.db"@,
    {
        Config { server: ServerSection::default(), database: DatabaseSection::default() }
    }
}

impl Default for LaunchArgs {
    /// No overrides and an empty config path.
    fn default() -> (r: Self)
        ensures
            r.ip is None,
            r.port is None,
            r.db_path is None,
            r.config@.len() == 0,
    {
        LaunchArgs { ip: None, port: None, db_path: None, config: String::new() }
    }
}

impl Clone for ServerSection {
    /// An equal copy.
    fn clone(&self) -> (r: Self)
        ensures
            r == *self,
    {
        ServerSection {
            bind_ip: self.bind_ip.clone(),
            port: self.port,
            show_timestamp: self.show_timestamp,
        }
    }
}

impl Clone for DatabaseSection {
    /// An equal copy.
    fn clone(&self) -> (r: Self)
        ensures
            r == *self,
    {
        DatabaseSection { path: self.path.clone() }
    }
}

impl Clone for Config {
    /// An equal copy.
    fn clone(&self) -> (r: Self)
        ensures
            r == *self,
    {
        Config { server: self.server.clone(), database: self.database.clone() }
    }
}

impl Config {
    /// The address to listen on.
    pub fn bind_ip(&self) -> (r: &str)
        ensures
            r@ == self.server.bind_ip@,
    {
        self.server.bind_ip.as_str()
    }

    /// The port to listen on.
    pub fn port(&self) -> (r: u16)
        ensures
            r == self.server.port,
    {
        self.server.port
    }

    /// The path of the SQLite file.
    pub fn db_path(&self) -> (r: &str)
        ensures
            r@ == self.database.path@,
    {
        self.database.path.as_str()
    }

    /// Applies the command-line overrides. `ip_parses` says whether
    /// `args.ip` reads as an IP address (a check the caller makes with the
    /// standard library); an address that does not is ignored. Every other
    /// given override replaces its setting.
    pub fn apply_launch_args(&mut self, args: LaunchArgs, ip_parses: bool)
        ensures
            final(self).server.bind_ip == (if args.ip is Some && ip_parses {
                args.ip->0
            } else {
                old(self).server.bind_ip
            }),
            final(self).server.port == (match args.port {
                Some(p) => p,
                None => old(self).server.port,
            }),
            final(self).server.show_timestamp == old(self).server.show_timestamp,
            final(self).database.path == (match args.db_path {
                Some(d) => d,
                None => old(self).database.path,
            }),
    {
        if let Some(ip) = args.ip {
            if ip_parses {
                self.server.bind_ip = ip;
            }
        }
        if let Some(port) = args.port {
            self.server.port = port;
        }
        if let Some(db) = args.db_path {
            self.database.path = db;
        }
    }
}

} // verus!
