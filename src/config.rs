//! Process-wide settings, loaded once at start and passed to the parts that
//! need them.
use vstd::prelude::*;
use vstd::string::StringExecFns;

use crate::text::str_eq;

verus! {

/// Storage location that stands for an engine database held in memory only.
pub const MEMORY_PATH: &'static str = ":memory:";

/// Settings of one server process: where it listens, the one account it
/// accepts, and where the engine keeps its data.
#[derive(Debug)]
pub struct FatherDuckConfig {
    pub host: String,
    pub port: u16,
    pub username: String,
    pub password: String,
    pub path: String,
}

/// Where the engine keeps its data.
#[derive(Debug)]
pub enum Storage {
    InMemory,
    File(String),
}

impl FatherDuckConfig {
    /// The settings a server runs with when nothing overrides them: local
    /// host, the protocol's usual port, the account `fatherduck`, and an
    /// in-memory database.
    pub fn default_config() -> (r: FatherDuckConfig)
        ensures
            r.host@ == "127.0.0.1"@,
            r.port == 5432,
            r.username@ == "fatherduck"@,
            r.password@ == "fatherduck"@,
            r.path@ == MEMORY_PATH@,
    {
        FatherDuckConfig {
            host: String::from_str("127.0.0.1"),
            port: 5432,
            username: String::from_str("fatherduck"),
            password: String::from_str("fatherduck"),
            path: String::from_str(MEMORY_PATH),
        }
    }

    /// The engine database to open: in memory for the sentinel path, else the file.
    pub fn storage(&self) -> (r: Storage)
        ensures
            self.path@ == MEMORY_PATH@ ==> r is InMemory,
            self.path@ != MEMORY_PATH@ ==> (r matches Storage::File(p) && p@ == self.path@),
    {
        if str_eq(self.path.as_str(), MEMORY_PATH) {
            Storage::InMemory
        } else {
            Storage::File(self.path.clone())
        }
    }
}

impl Default for FatherDuckConfig {
    fn default() -> (r: FatherDuckConfig)
        ensures
            r.host@ == "127.0.0.1"@,
            r.port == 5432,
            r.username@ == "fatherduck"@,
            r.password@ == "fatherduck"@,
            r.path@ == MEMORY_PATH@,
    {
        FatherDuckConfig::default_config()
    }
}

} // verus!
