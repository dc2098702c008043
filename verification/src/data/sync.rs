//! Settings of the server that course data is synchronised from, and where
//! the synchronised database is kept.
use vstd::prelude::*;
use crate::text::{
    chars_of, concat, decimal, join_path, opt_text, parse_u16_chars, parse_u16_spec, path_join,
    u16_string,
};

verus! {

/// Where to synchronise course data from, and where to store it.
#[derive(Debug, Clone)]
pub struct SyncConfig {
    pub server_url: String,
    pub server_port: u16,
    pub db_path: String,
}

/// The server URL and port given their settings as read from the
/// environment (`http://localhost` and `8080` where unset), or the error
/// when the port is not a `u16`.
pub open spec fn config_outcome(
    server_url: Option<Seq<char>>,
    server_port: Option<Seq<char>>,
) -> Result<(Seq<char>, int), Seq<char>> {
    let url = match server_url {
        Some(u) => u,
        None => "http://localhost"@,
    };
    let port = match server_port {
        Some(p) => p,
        None => "8080"@,
    };
    match parse_u16_spec(port) {
        Some(n) => Ok((url, n)),
        None => Err("Invalid CLASSY_SERVER_PORT in .env file"@),
    }
}

/// Where the synchronised database is kept by default: `classy/classes.db`
/// under the manifest directory.
pub open spec fn default_db_path(manifest_dir: Seq<char>) -> Seq<char> {
    path_join(path_join(manifest_dir, "classy"@), "classes.db"@)
}

/// The database path of the settings read from the environment, when they
/// are valid: always the default place.
pub open spec fn settings_db_path(
    server_url: Option<Seq<char>>,
    server_port: Option<Seq<char>>,
    manifest_dir: Seq<char>,
) -> Option<Seq<char>> {
    match config_outcome(server_url, server_port) {
        Ok(_) => Some(default_db_path(manifest_dir)),
        Err(_) => None,
    }
}

/// The synchronised database: the settings' path when there are settings,
/// else the default place.
pub open spec fn synced_db_path(config_db: Option<Seq<char>>, manifest_dir: Seq<char>) -> Seq<char> {
    match config_db {
        Some(p) => p,
        None => default_db_path(manifest_dir),
    }
}

/// Whatever the environment holds (a valid, invalid or missing port), the
/// synchronised database is `classy/classes.db` under the manifest
/// directory: with valid settings their path is that place, and without
/// them the default is.
pub proof fn lemma_synced_db_path_is_fixed(
    server_url: Option<Seq<char>>,
    server_port: Option<Seq<char>>,
    manifest_dir: Seq<char>,
)
    ensures
        synced_db_path(settings_db_path(server_url, server_port, manifest_dir), manifest_dir)
            == default_db_path(manifest_dir),
{
}

impl SyncConfig {
    /// The settings from the server URL and port as read from the
    /// environment, with the database in its default place under the
    /// manifest directory.
    pub fn from_settings(server_url: Option<String>, server_port: Option<String>, manifest_dir: &str) -> (r: Result<SyncConfig, String>)
        ensures
            match config_outcome(opt_text(server_url), opt_text(server_port)) {
                Ok((u, p)) => r matches Ok(c) && c.server_url@ == u && c.server_port == p
                    && Some(c.db_path@) == settings_db_path(opt_text(server_url), opt_text(server_port), manifest_dir@),
                Err(m) => r matches Err(e) && e@ == m,
            },
    {
        let dir = join_path(manifest_dir, "classy");
        let db_path = join_path(dir.as_str(), "classes.db");
        SyncConfig::from_values(server_url, server_port, db_path)
    }

    /// The settings from the server URL and port as read from the
    /// environment, and the database path.
    pub fn from_values(server_url: Option<String>, server_port: Option<String>, db_path: String) -> (r: Result<SyncConfig, String>)
        ensures
            match config_outcome(opt_text(server_url), opt_text(server_port)) {
                Ok((u, p)) => r matches Ok(c) && c.server_url@ == u && c.server_port == p
                    && c.db_path@ == db_path@,
                Err(m) => r matches Err(e) && e@ == m,
            },
    {
        let url = match server_url {
            Some(u) => u,
            None => "http://localhost".to_string(),
        };
        let port_text = match server_port {
            Some(p) => p,
            None => "8080".to_string(),
        };
        match parse_u16_chars(&chars_of(port_text.as_str())) {
            Some(port) => Ok(SyncConfig { server_url: url, server_port: port, db_path }),
            None => Err("Invalid CLASSY_SERVER_PORT in .env file".to_string()),
        }
    }

    /// `url:port`.
    pub fn server_url_with_port(&self) -> (r: String)
        ensures
            r@ == self.server_url@ + ":"@ + decimal(self.server_port as nat),
    {
        let mut s = concat(self.server_url.as_str(), ":");
        let port = u16_string(self.server_port);
        s.append(port.as_str());
        s
    }

    /// The endpoint that serves all course data: the given override, else
    /// `url:port/sync/all`.
    pub fn all_sync_endpoint(&self, endpoint_override: Option<String>) -> (r: String)
        ensures
            match endpoint_override {
                Some(e) => r@ == e@,
                None => r@ == self.server_url@ + ":"@ + decimal(self.server_port as nat) + "/sync/all"@,
            },
    {
        match endpoint_override {
            Some(e) => e,
            None => {
                let base = self.server_url_with_port();
                concat(base.as_str(), "/sync/all")
            },
        }
    }
}

/// The synchronised database: the configured one, else
/// `<manifest dir>/classy/classes.db`.
pub fn get_synced_db_path(config: Option<&SyncConfig>, manifest_dir: &str) -> (r: String)
    ensures
        r@ == synced_db_path(
            match config {
                Some(c) => Some(c.db_path@),
                None => None,
            },
            manifest_dir@,
        ),
{
    match config {
        Some(c) => c.db_path.clone(),
        None => {
            let dir = join_path(manifest_dir, "classy");
            join_path(dir.as_str(), "classes.db")
        },
    }
}

/// Data has been synchronised when the database file exists and is not
/// empty (`file_len` is `None` where its size cannot be read).
pub fn is_synced(exists: bool, file_len: Option<u64>) -> (r: bool)
    ensures
        r == (exists && (file_len matches Some(n) && n > 0)),
{
    exists && match file_len {
        Some(n) => n > 0,
        None => false,
    }
}

} // verus!
