//! Static properties of the service and its timing configuration.
use vstd::prelude::*;
use vstd::string::StringExecFns;

verus! {

/// Base path under which the service's APIs are mounted.
pub const API_BASE_PATH: &'static str = "/api";

/// Version segment of the API path.
pub const API_VERSION_STR: &'static str = "v1";

/// Name of the service.
pub const SERVICE_NAME: &'static str = "TEMPLATE";

/// Short description of the service.
pub const SERVICE_DESCRIPTION: &'static str = "A password-authenticated service with login sessions";

/// Path under which the API documentation is served.
pub const DOCS_BASE_PATH: &'static str = "/docs";

/// A short summary of the service.
pub const SERVICE_SUMMARY: &'static str = "A template service that uses using axum, axum-login, sqlite and aide";

/// Seconds of inactivity after which a login session expires (one day).
pub const INACTIVE_SESSION_TIMEOUT_SECS: u64 = 86400;

/// Seconds between two sweeps of expired sessions.
pub const DELETE_EXPIRED_FREQUENCY_SECS: u64 = 60;

/// Static properties of the service.
pub struct ServiceDetails {
    pub name: &'static str,
    pub description: &'static str,
    pub summary: &'static str,
    pub api_version: &'static str,
    pub api_base_path: &'static str,
    pub docs_base_path: &'static str,
}

/// The path `base/version/name`.
pub open spec fn api_path_of(base: Seq<char>, version: Seq<char>, name: Seq<char>) -> Seq<char> {
    base + seq!['/'] + version + seq!['/'] + name
}

impl ServiceDetails {
    /// Builds the API path from its components, joined by `/`.
    pub fn api_path(&self) -> (r: String)
        ensures
            r@ == api_path_of(self.api_base_path@, self.api_version@, self.name@),
    {
        let mut r = String::from_str(self.api_base_path);
        r.append("/");
        r.append(self.api_version);
        r.append("/");
        r.append(self.name);
        proof {
            reveal_strlit("/");
        }
        r
    }
}

impl Default for ServiceDetails {
    fn default() -> (r: Self)
        ensures
            r.name == SERVICE_NAME,
            r.description == SERVICE_DESCRIPTION,
            r.summary == SERVICE_SUMMARY,
            r.api_version == API_VERSION_STR,
            r.api_base_path == API_BASE_PATH,
            r.docs_base_path == DOCS_BASE_PATH,
    {
        ServiceDetails {
            name: SERVICE_NAME,
            description: SERVICE_DESCRIPTION,
            summary: SERVICE_SUMMARY,
            api_version: API_VERSION_STR,
            api_base_path: API_BASE_PATH,
            docs_base_path: DOCS_BASE_PATH,
        }
    }
}

} // verus!
