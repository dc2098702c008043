//! Where the course database is.
use vstd::prelude::*;

verus! {

/// The location of the course database.
#[derive(Debug, Clone)]
pub struct DbConfig {
    pub db_path: String,
}

impl DbConfig {
    /// The default location, `src/data/classes.db`.
    pub fn new() -> (r: DbConfig)
        ensures
            r.db_path@ == "src/data/classes.db"@,
    {
        DbConfig { db_path: "src/data/classes.db".to_string() }
    }

    /// The database at the given path.
    pub fn with_path(path: String) -> (r: DbConfig)
        ensures
            r.db_path@ == path@,
    {
        DbConfig { db_path: path }
    }

    /// The database's path.
    pub fn get_path(&self) -> (r: &String)
        ensures
            r@ == self.db_path@,
    {
        &self.db_path
    }
}

} // verus!
