//! Configuration the core consumes, supplied by the process environment.

use vstd::prelude::*;

verus! {

/// Environment-supplied configuration: persistence coordinates, the identity
/// provider's key endpoint and expected audience, the shared signing secret,
/// and the listen port. Reading the process environment is the caller's job;
/// the core only consumes the values.
pub struct EnvironmentVariables {
    pub db_url: String,
    pub db_name: String,
    pub db_user: String,
    pub db_pass: String,
    pub google_certs_urls: String,
    pub google_token_aud: String,
    pub hmac_key: String,
    pub port: u16,
}

} // verus!
