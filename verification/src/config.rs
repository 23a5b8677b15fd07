//! What the scanner is told from outside, and what it assumes where it is
//! told nothing.

use crate::text::text_eq;
use crate::types::opt_text;
use vstd::prelude::*;
use vstd::string::StringExecFns;

verus! {

/// Name of the setting that selects the storage backend.
pub const STORAGE_TYPE: &'static str = "STORAGE_TYPE";

/// Name of the setting that holds the address of the relational database.
pub const DATABASE_URL: &'static str = "DATABASE_URL";

/// Name of the setting that holds the address of the key-value service.
pub const KV_URL: &'static str = "KV_URL";

/// Name of the setting that holds the directory of the snapshot store.
pub const JSON_DB_PATH: &'static str = "JSON_DB_PATH";

/// Name of the setting that asks for a scan of the whole listing at start.
pub const SCAN_ALL_FIRST: &'static str = "SCAN_ALL_FIRST";

pub const DEFAULT_DATABASE_URL: &'static str = "sqlite:data.db";

pub const DEFAULT_KV_URL: &'static str = "redis://127.0.0.1:6379";

pub const DEFAULT_JSON_DB_PATH: &'static str = "data";

/// Seconds between two rounds of the live loop.
pub const SCAN_INTERVAL_SECS: u64 = 10;

/// The size of the pages of the scan of the whole listing.
pub const SCAN_ALL_BATCH: u32 = 100;

/// How many connections the relational backend keeps.
pub const SQL_POOL_SIZE: u32 = 5;

/// The storage backends.
#[derive(Clone, Copy, Debug, PartialEq, Eq, Structural)]
pub enum StorageKind {
    Sql,
    Kv,
    Json,
}

/// The backend that a setting selects: `sql` or `sqlite` the relational
/// one, `kv` or `redis` the key-value one, anything else, or no setting, the
/// snapshot store.
pub open spec fn storage_kind_of(name: Option<Seq<char>>) -> StorageKind {
    match name {
        Some(n) => if n == "sql"@ || n == "sqlite"@ {
            StorageKind::Sql
        } else if n == "kv"@ || n == "redis"@ {
            StorageKind::Kv
        } else {
            StorageKind::Json
        },
        None => StorageKind::Json,
    }
}

/// A setting, or its default where it is not set.
pub open spec fn setting_or(value: Option<Seq<char>>, default: Seq<char>) -> Seq<char> {
    match value {
        Some(v) => v,
        None => default,
    }
}

/// Whether a setting switches something on: only the text `true` does.
pub open spec fn is_true(value: Option<Seq<char>>) -> bool {
    value == Some("true"@)
}

/// What the scanner runs with.
#[derive(Debug, PartialEq, Eq)]
pub struct Config {
    pub storage: StorageKind,
    pub database_url: String,
    pub kv_url: String,
    pub json_db_path: String,
    pub scan_all_first: bool,
}

fn or_default(value: &Option<String>, default: &str) -> (r: String)
    ensures
        r@ == setting_or(opt_text(*value), default@),
{
    match value {
        Some(v) => v.clone(),
        None => String::from_str(default),
    }
}

impl StorageKind {
    /// The backend that the setting `name` selects.
    pub fn from_setting(name: &Option<String>) -> (r: StorageKind)
        ensures
            r == storage_kind_of(opt_text(*name)),
    {
        match name {
            Some(n) => {
                let n = n.as_str();
                if text_eq(n, "sql") || text_eq(n, "sqlite") {
                    StorageKind::Sql
                } else if text_eq(n, "kv") || text_eq(n, "redis") {
                    StorageKind::Kv
                } else {
                    StorageKind::Json
                }
            },
            None => StorageKind::Json,
        }
    }
}

impl Config {
    /// The configuration that the five settings amount to, each `None`
    /// where it is not set.
    pub fn from_settings(
        storage_type: &Option<String>,
        database_url: &Option<String>,
        kv_url: &Option<String>,
        json_db_path: &Option<String>,
        scan_all_first: &Option<String>,
    ) -> (r: Config)
        ensures
            r.storage == storage_kind_of(opt_text(*storage_type)),
            r.database_url@ == setting_or(opt_text(*database_url), DEFAULT_DATABASE_URL@),
            r.kv_url@ == setting_or(opt_text(*kv_url), DEFAULT_KV_URL@),
            r.json_db_path@ == setting_or(opt_text(*json_db_path), DEFAULT_JSON_DB_PATH@),
            r.scan_all_first == is_true(opt_text(*scan_all_first)),
    {
        let first = match scan_all_first {
            Some(v) => text_eq(v.as_str(), "true"),
            None => false,
        };
        Config {
            storage: StorageKind::from_setting(storage_type),
            database_url: or_default(database_url, DEFAULT_DATABASE_URL),
            kv_url: or_default(kv_url, DEFAULT_KV_URL),
            json_db_path: or_default(json_db_path, DEFAULT_JSON_DB_PATH),
            scan_all_first: first,
        }
    }
}

} // verus!
