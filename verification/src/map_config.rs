//! Runtime settings of the map server: where it listens, which world it
//! serves, where its database and its script tree live. Missing settings
//! fall back to the defaults below. Reading the file and the command line
//! belongs to the caller.

use vstd::prelude::*;

verus! {

/// The `[server]` table.
#[derive(Debug)]
pub struct ServerSection {
    pub bind_ip: String,
    pub port: u16,
    /// Kept so that a written file round-trips; the log formatter decides
    /// on timestamps by itself.
    pub show_timestamp: bool,
    pub world_id: u32,
}

/// The `[database]` table.
#[derive(Debug)]
pub struct DatabaseSection {
    /// Path of the SQLite file, created on first run if missing.
    pub path: String,
}

/// The `[scripting]` table.
#[derive(Debug)]
pub struct ScriptingSection {
    /// Root of the Lua script tree.
    pub script_root: String,
    /// When false, the database loaders and the actor spawn are skipped
    /// (the test harness runs so).
    pub load_from_database: bool,
}

/// The whole map configuration.
#[derive(Debug)]
pub struct Config {
    pub server: ServerSection,
    pub database: DatabaseSection,
    pub scripting: ScriptingSection,
}

/// Command-line overrides; `None` leaves the configured value.
#[derive(Debug)]
pub struct LaunchArgs {
    pub ip: Option<String>,
    pub port: Option<u16>,
    pub db_path: Option<String>,
    pub world_id: Option<u32>,
    /// Path of the TOML file to read.
    pub config: String,
}

impl Default for ServerSection {
    /// Listen on 127.0.0.1:1989 for world 1, with timestamps.
    fn default() -> (r: Self)
        ensures
            r.bind_ip@ == "127.0.0.1"@,
            r.port == 1989,
            r.show_timestamp,
            r.world_id == 1,
    {
        ServerSection {
            bind_ip: "127.0.0.1".to_owned(),
            port: 1989,
            show_timestamp: true,
            world_id: 1,
        }
    }
}

impl Default for DatabaseSection {
    /// The database at `./data/garlemald.db`.
    fn default() -> (r: Self)
        ensures
            r.path@ == "./data/garlemald.db"@,
    {
        DatabaseSection { path: "./data/garlemald.db".to_owned() }
    }
}

impl Default for ScriptingSection {
    /// Scripts under `./scripts`, loaded from the database.
    fn default() -> (r: Self)
        ensures
            r.script_root@ == "./scripts"@,
            r.load_from_database,
    {
        ScriptingSection { script_root: "./scripts".to_owned(), load_from_database: true }
    }
}

impl Default for Config {
    /// Every table at its default.
    fn default() -> (r: Self)
        ensures
            r.server.bind_ip@ == "127.0.0.1"@,
            r.server.port == 1989,
            r.server.show_timestamp,
            r.server.world_id == 1,
            r.database.path@ == "./data/garlemald.db"@,
            r.scripting.script_root@ == "./scripts"@,
            r.scripting.load_from_database,
    {
        Config {
            server: ServerSection::default(),
            database: DatabaseSection::default(),
            scripting: ScriptingSection::default(),
        }
    }
}

impl Default for LaunchArgs {
    /// No overrides and an empty config path.
    fn default() -> (r: Self)
        ensures
            r.ip is None,
            r.port is None,
            r.db_path is None,
            r.world_id is None,
            r.config@.len() == 0,
    {
        LaunchArgs { ip: None, port: None, db_path: None, world_id: None, config: String::new() }
    }
}

impl Clone for ServerSection {
    /// An equal copy.
    fn clone(&self) -> (r: Self)
        ensures
            r == *self,
    {
        ServerSection {
            bind_ip: self.bind_ip.clone(),
            port: self.port,
            show_timestamp: self.show_timestamp,
            world_id: self.world_id,
        }
    }
}

impl Clone for DatabaseSection {
    /// An equal copy.
    fn clone(&self) -> (r: Self)
        ensures
            r == *self,
    {
        DatabaseSection { path: self.path.clone() }
    }
}

impl Clone for ScriptingSection {
    /// An equal copy.
    fn clone(&self) -> (r: Self)
        ensures
            r == *self,
    {
        ScriptingSection {
            script_root: self.script_root.clone(),
            load_from_database: self.load_from_database,
        }
    }
}

impl Clone for Config {
    /// An equal copy.
    fn clone(&self) -> (r: Self)
        ensures
            r == *self,
    {
        Config {
            server: self.server.clone(),
            database: self.database.clone(),
            scripting: self.scripting.clone(),
        }
    }
}

impl Config {
    /// The address to listen on.
    pub fn bind_ip(&self) -> (r: &str)
        ensures
            r@ == self.server.bind_ip@,
    {
        self.server.bind_ip.as_str()
    }

    /// The port to listen on.
    pub fn port(&self) -> (r: u16)
        ensures
            r == self.server.port,
    {
        self.server.port
    }

    /// The path of the SQLite file.
    pub fn db_path(&self) -> (r: &str)
        ensures
            r@ == self.database.path@,
    {
        self.database.path.as_str()
    }

    /// The root of the script tree.
    pub fn script_root(&self) -> (r: &str)
        ensures
            r@ == self.scripting.script_root@,
    {
        self.scripting.script_root.as_str()
    }

    /// Whether the database loaders run at start.
    pub fn load_from_database(&self) -> (r: bool)
        ensures
            r == self.scripting.load_from_database,
    {
        self.scripting.load_from_database
    }

    /// The world this server belongs to.
    pub fn world_id(&self) -> (r: u32)
        ensures
            r == self.server.world_id,
    {
        self.server.world_id
    }

    /// Applies the command-line overrides. `ip_parses` says whether
    /// `args.ip` reads as an IP address (a check the caller makes with the
    /// standard library); an address that does not is ignored. Every other
    /// given override replaces its setting.
    pub fn apply_launch_args(&mut self, args: LaunchArgs, ip_parses: bool)
        ensures
            final(self).server.bind_ip == (if args.ip is Some && ip_parses {
                args.ip->0
            } else {
                old(self).server.bind_ip
            }),
            final(self).server.port == (match args.port {
                Some(p) => p,
                None => old(self).server.port,
            }),
            final(self).server.show_timestamp == old(self).server.show_timestamp,
            final(self).server.world_id == (match args.world_id {
                Some(w) => w,
                None => old(self).server.world_id,
            }),
            final(self).database.path == (match args.db_path {
                Some(d) => d,
                None => old(self).database.path,
            }),
            final(self).scripting == old(self).scripting,
    {
        if let Some(ip) = args.ip {
            if ip_parses {
                self.server.bind_ip = ip;
            }
        }
        if let Some(port) = args.port {
            self.server.port = port;
        }
        if let Some(db) = args.db_path {
            self.database.path = db;
        }
        if let Some(world_id) = args.world_id {
            self.server.world_id = world_id;
        }
    }
}

} // verus!
