//! Settings of the server that exposes the engine.

use vstd::prelude::*;

verus! {

/// Settings of the HTTP server.
#[derive(Debug, Clone)]
pub struct ServerConfig {
    /// TCP port to listen on.
    pub port: u16,
    /// Name of the request header that carries the API key.
    pub api_key_auth_header: String,
    /// Where the key set that validates tokens is fetched from.
    pub jwks_url: String,
    /// Shared secret expected on internal routes.
    pub internal_auth_secret: String,
}

/// The port used where none is configured.
pub fn default_port() -> (port: u16)
    ensures
        port == 5397,
{
    5397
}

/// The API-key header used where none is configured.
pub fn default_api_key_auth_header() -> (header: String)
    ensures
        header@ == "X-API-KEY"@,
{
    "X-API-KEY".to_owned()
}

/// The key-set address used where none is configured.
pub fn default_jwks_url() -> (url: String)
    ensures
        url@ == "http://localhost:4456/.well-known/jwks.json"@,
{
    "http://localhost:4456/.well-known/jwks.json".to_owned()
}

/// The internal secret used where none is configured. Fit for development
/// only.
pub fn default_internal_auth_secret() -> (secret: String)
    ensures
        secret@ == "dev-only-insecure-secret"@,
{
    "dev-only-insecure-secret".to_owned()
}

impl Default for ServerConfig {
    /// The settings in which every field has its default.
    fn default() -> (config: ServerConfig)
        ensures
            config.port == 5397,
            config.api_key_auth_header@ == "X-API-KEY"@,
            config.jwks_url@ == "http://localhost:4456/.well-known/jwks.json"@,
            config.internal_auth_secret@ == "dev-only-insecure-secret"@,
    {
        ServerConfig {
            port: default_port(),
            api_key_auth_header: default_api_key_auth_header(),
            jwks_url: default_jwks_url(),
            internal_auth_secret: default_internal_auth_secret(),
        }
    }
}

} // verus!
