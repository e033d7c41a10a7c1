//! The process configuration of an app instance.
use vstd::prelude::*;
use vstd::string::StringExecFns;

verus! {

/// Configuration of an app instance.
#[derive(Debug, Clone)]
pub struct AppConfig {
    /// Name of the app instance.
    pub name: String,
    /// Path where the database can be found or created.
    pub db_path: String,
    /// Path where app data can be stored.
    pub data_path: String,
}

impl Default for AppConfig {
    fn default() -> (r: Self)
        ensures
            r.name@ == "axum, axum-login, sqlx, aide template"@,
            r.db_path@ == "./sqlite.db"@,
            r.data_path@ == "./cache"@,
    {
        AppConfig {
            name: String::from_str("axum, axum-login, sqlx, aide template"),
            db_path: String::from_str("./sqlite.db"),
            data_path: String::from_str("./cache"),
        }
    }
}

} // verus!
