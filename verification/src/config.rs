use vstd::prelude::*;

verus! {

/// Where the server listens.
pub struct HostRouterConfig {
    pub address: String,
    pub port: u16,
}

/// Paths, trusted peers and the cookie key.
pub struct VarsRouterConfig {
    pub static_url_path: String,
    pub static_folder: String,
    pub template_folder: String,
    pub trusted_sites: Vec<String>,
    pub trusted_services: Vec<String>,
    pub secret_key: String,
}

/// The server's configuration file, and the path it was read from.
pub struct RouterConfig {
    pub host: HostRouterConfig,
    pub vars: VarsRouterConfig,
    pub path: String,
}

} // verus!
