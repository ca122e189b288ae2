//! The service configuration, read once at startup from a secret store.
use vstd::prelude::*;

verus! {

/// Key of the shared phrase that authorizes coverage submissions.
pub fn secret_phrase_key() -> (r: &'static str)
    ensures
        r@ == "SECRET_PHRASE"@,
{
    proof {
        reveal_strlit("SECRET_PHRASE");
    }
    "SECRET_PHRASE"
}

/// Key of the remote database URL.
pub fn db_url_key() -> (r: &'static str)
    ensures
        r@ == "TURSO_DB_URL"@,
{
    proof {
        reveal_strlit("TURSO_DB_URL");
    }
    "TURSO_DB_URL"
}

/// Key of the remote database auth token.
pub fn db_auth_token_key() -> (r: &'static str)
    ensures
        r@ == "TURSO_DB_AUTH_TOKEN"@,
{
    proof {
        reveal_strlit("TURSO_DB_AUTH_TOKEN");
    }
    "TURSO_DB_AUTH_TOKEN"
}

/// Immutable settings shared by every request.
#[derive(Clone)]
pub struct ServiceConfig {
    pub secret_phrase: String,
    pub turso_db_url: String,
    pub turso_auth_token: String,
}

/// A secret the store did not supply; the service must not start.
#[derive(Clone, Copy, Debug, PartialEq, Eq, Structural)]
pub enum ConfigError {
    MissingSecretPhrase,
    MissingDbUrl,
    MissingDbAuthToken,
}

impl ServiceConfig {
    /// Builds the configuration from the three looked-up secrets. The first
    /// absent one, in the order phrase, URL, token, is reported.
    pub fn from_secrets(
        secret_phrase: Option<String>,
        turso_db_url: Option<String>,
        turso_auth_token: Option<String>,
    ) -> (r: Result<ServiceConfig, ConfigError>)
        ensures
            secret_phrase.is_none() ==> r == Err::<ServiceConfig, ConfigError>(
                ConfigError::MissingSecretPhrase,
            ),
            secret_phrase.is_some() && turso_db_url.is_none() ==> r == Err::<
                ServiceConfig,
                ConfigError,
            >(ConfigError::MissingDbUrl),
            secret_phrase.is_some() && turso_db_url.is_some() && turso_auth_token.is_none() ==> r
                == Err::<ServiceConfig, ConfigError>(ConfigError::MissingDbAuthToken),
            r.is_ok() <==> (secret_phrase.is_some() && turso_db_url.is_some()
                && turso_auth_token.is_some()),
            r matches Ok(c) ==> c.secret_phrase == secret_phrase.unwrap() && c.turso_db_url
                == turso_db_url.unwrap() && c.turso_auth_token == turso_auth_token.unwrap(),
    {
        match (secret_phrase, turso_db_url, turso_auth_token) {
            (None, _, _) => Err(ConfigError::MissingSecretPhrase),
            (Some(_), None, _) => Err(ConfigError::MissingDbUrl),
            (Some(_), Some(_), None) => Err(ConfigError::MissingDbAuthToken),
            (Some(p), Some(u), Some(t)) => Ok(
                ServiceConfig { secret_phrase: p, turso_db_url: u, turso_auth_token: t },
            ),
        }
    }
}

} // verus!
