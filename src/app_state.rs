//! The service's configuration and the signer and verifier built from it.

use vstd::prelude::*;
use vstd::string::*;
use crate::auth::{
    private_pem_accepted, public_pem_accepted, public_pem_of, AuthConfig, AuthError, AuthSigner, AuthVerifier,
};

verus! {

/// The service's configuration.
#[derive(Debug, Clone)]
pub struct AppConfig {
    pub server_name: String,
    pub port: u16,
    pub auth: AuthConfig,
}

impl Default for AppConfig {
    /// `echo-service` on port 3000, with a fresh key pair.
    fn default() -> (r: Self)
        ensures
            r.server_name@ == "echo-service"@,
            r.port == 3000,
            private_pem_accepted(r.auth.sk@),
            public_pem_accepted(r.auth.pk@),
            r.auth.pk@ == public_pem_of(r.auth.sk@),
    {
        proof { reveal_strlit("echo-service"); }
        AppConfig {
            server_name: String::from_str("echo-service"),
            port: 3000,
            auth: AuthConfig::generate(),
        }
    }
}

/// What the request handlers share: the configuration, and the signer and
/// verifier built from its keys under the service's name.
pub struct AppState {
    pub config: AppConfig,
    pub verifier: AuthVerifier,
    pub signer: AuthSigner,
}

impl AppState {
    /// Builds the signer and verifier from `config`; fails where either key
    /// is malformed.
    pub fn new(config: AppConfig) -> (r: Result<Self, AuthError>)
        ensures
            r is Ok <==> private_pem_accepted(config.auth.sk@) && public_pem_accepted(config.auth.pk@),
            r matches Ok(s) ==> s.config == config
                && s.signer.issuer() == config.server_name@
                && s.verifier.issuer() == config.server_name@
                && s.signer.key_pem() == config.auth.sk@
                && s.verifier.key_pem() == config.auth.pk@,
            r matches Err(e) ==> e == AuthError::KeyFormatInvalid,
    {
        let signer = match AuthSigner::try_new(config.server_name.as_str(), config.auth.sk.as_str()) {
            Ok(s) => s,
            Err(e) => return Err(e),
        };
        let verifier = match AuthVerifier::try_new(config.server_name.as_str(), config.auth.pk.as_str()) {
            Ok(v) => v,
            Err(e) => return Err(e),
        };
        Ok(AppState { config, verifier, signer })
    }
}

} // verus!
