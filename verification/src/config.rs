//! Assembly of credentials and client configuration from startup values.
//!
//! The surrounding application reads the two environment variables and
//! hands their values in as options; the decision of which configuration
//! error to report, and the shape of the resulting configuration, are
//! verified here. No network traffic is involved: failures are purely
//! local, missing-configuration failures.

use vstd::prelude::*;
use vstd::string::*;
use crate::errors::StorageError;

verus! {

/// A static access-key pair, sourced once at startup and never mutated.
pub struct Credentials {
    pub access_key_id: String,
    pub secret_access_key: String,
}

/// Everything a client needs: the region it is bound to and the
/// credentials it presents. Immutable after construction.
pub struct ClientConfig {
    pub region: String,
    pub credentials: Credentials,
}

/// Builds the credential pair from the values of the two environment
/// variables, or reports which one is missing. The error names the
/// missing variable; the access key is checked first.
pub fn build_credentials(key_id: Option<String>, secret_key: Option<String>) -> (r: Result<
    Credentials,
    StorageError,
>)
    ensures
        key_id is Some && secret_key is Some ==> (r matches Ok(c) && c.access_key_id@
            == key_id->0@ && c.secret_access_key@ == secret_key->0@),
        key_id is None ==> (r matches Err(e) && e matches StorageError::ConfigError(v) && v@
            == "AWS_ACCESS_KEY_ID"@),
        key_id is Some && secret_key is None ==> (r matches Err(e)
            && e matches StorageError::ConfigError(v) && v@ == "AWS_SECRET_ACCESS_KEY"@),
{
    let key_id = match key_id {
        Some(k) => k,
        None => {
            return Err(StorageError::ConfigError(String::from_str("AWS_ACCESS_KEY_ID")));
        },
    };
    let secret_key = match secret_key {
        Some(s) => s,
        None => {
            return Err(StorageError::ConfigError(String::from_str("AWS_SECRET_ACCESS_KEY")));
        },
    };
    Ok(Credentials { access_key_id: key_id, secret_access_key: secret_key })
}

/// Builds the full client configuration for one region from the values of
/// the two environment variables. The region must be non-empty; the
/// credential errors are exactly those of [`build_credentials`].
pub fn build_client_config(region: String, key_id: Option<String>, secret_key: Option<String>) -> (r:
    Result<ClientConfig, StorageError>)
    requires
        region@.len() > 0,
    ensures
        key_id is Some && secret_key is Some ==> (r matches Ok(c) && c.region@ == region@
            && c.credentials.access_key_id@ == key_id->0@ && c.credentials.secret_access_key@
            == secret_key->0@),
        key_id is None ==> (r matches Err(e) && e matches StorageError::ConfigError(v) && v@
            == "AWS_ACCESS_KEY_ID"@),
        key_id is Some && secret_key is None ==> (r matches Err(e)
            && e matches StorageError::ConfigError(v) && v@ == "AWS_SECRET_ACCESS_KEY"@),
{
    let credentials = match build_credentials(key_id, secret_key) {
        Ok(c) => c,
        Err(e) => {
            return Err(e);
        },
    };
    Ok(ClientConfig { region, credentials })
}

} // verus!
