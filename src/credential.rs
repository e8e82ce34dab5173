use vstd::prelude::*;

verus! {

/// The options that describe how the backend authenticates.
///
/// Either a short-lived `access_token`, or a `refresh_token` together with
/// the `client_id` and `client_secret` of the application.
#[derive(Clone, PartialEq, Eq)]
pub struct Config {
    pub access_token: Option<String>,
    pub refresh_token: Option<String>,
    pub client_id: Option<String>,
    pub client_secret: Option<String>,
}

/// The credential the backend signs its requests with.
#[derive(Clone, PartialEq, Eq)]
#[allow(inconsistent_fields)]
pub enum Credential {
    /// A token supplied by the user; it is never refreshed.
    Fixed { access_token: String },
    /// A refresh-token triple, with the bearer token obtained from it once
    /// a refresh has succeeded.
    Refreshable {
        access_token: Option<String>,
        /// Unix time, in seconds, at which `access_token` stops being valid.
        expires_at: Option<i64>,
        refresh_token: String,
        client_id: String,
        client_secret: String,
    },
}

/// Why a configuration cannot be turned into a credential.
#[derive(Debug, Clone, PartialEq, Eq)]
pub enum ConfigError {
    /// Two options that exclude each other are both set.
    Conflicting(String),
    /// An option that is needed is not set.
    Missing(String),
}

impl ConfigError {
    /// The message that says what is wrong.
    pub fn message(&self) -> (r: String)
        ensures
            r@ == match self {
                ConfigError::Conflicting(m) => m@,
                ConfigError::Missing(m) => m@,
            },
    {
        match self {
            ConfigError::Conflicting(m) => m.clone(),
            ConfigError::Missing(m) => m.clone(),
        }
    }
}

/// The message when both tokens are set.
pub open spec fn conflicting_tokens_msg() -> Seq<char> {
    "access_token and refresh_token can not be set at the same time"@
}

/// The message when neither token is set.
pub open spec fn missing_token_msg() -> Seq<char> {
    "access_token or refresh_token must be set"@
}

/// The message when a refresh token comes without a client id.
pub open spec fn missing_client_id_msg() -> Seq<char> {
    "client_id must be set when refresh_token is set"@
}

/// The message when a refresh token comes without a client secret.
pub open spec fn missing_client_secret_msg() -> Seq<char> {
    "client_secret must be set when refresh_token is set"@
}

/// `r` is a `Conflicting` error with message `msg`.
pub open spec fn is_conflicting(r: Result<Credential, ConfigError>, msg: Seq<char>) -> bool {
    match r {
        Err(ConfigError::Conflicting(m)) => m@ == msg,
        _ => false,
    }
}

/// `r` is a `Missing` error with message `msg`.
pub open spec fn is_missing(r: Result<Credential, ConfigError>, msg: Seq<char>) -> bool {
    match r {
        Err(ConfigError::Missing(m)) => m@ == msg,
        _ => false,
    }
}

/// `r` is what resolving the configuration `c` gives.
pub open spec fn resolves(c: Config, r: Result<Credential, ConfigError>) -> bool {
    match (c.access_token, c.refresh_token) {
        (Some(_), Some(_)) => is_conflicting(r, conflicting_tokens_msg()),
        (None, None) => is_missing(r, missing_token_msg()),
        (Some(token), None) => r == Ok::<Credential, ConfigError>(
            Credential::Fixed { access_token: token },
        ),
        (None, Some(refresh_token)) => match (c.client_id, c.client_secret) {
            (None, _) => is_missing(r, missing_client_id_msg()),
            (Some(_), None) => is_missing(r, missing_client_secret_msg()),
            (Some(client_id), Some(client_secret)) => r == Ok::<Credential, ConfigError>(
                Credential::Refreshable {
                    access_token: None,
                    expires_at: None,
                    refresh_token,
                    client_id,
                    client_secret,
                },
            ),
        },
    }
}

/// Turns a configuration into exactly one kind of credential, or says
/// which option is wrong.
pub fn resolve(config: Config) -> (r: Result<Credential, ConfigError>)
    ensures
        resolves(config, r),
{
    match (config.access_token, config.refresh_token) {
        (Some(_), Some(_)) => Err(
            ConfigError::Conflicting(
                "access_token and refresh_token can not be set at the same time".to_owned(),
            ),
        ),
        (None, None) => Err(
            ConfigError::Missing("access_token or refresh_token must be set".to_owned()),
        ),
        (Some(access_token), None) => Ok(Credential::Fixed { access_token }),
        (None, Some(refresh_token)) => {
            let client_id = match config.client_id {
                Some(id) => id,
                None => {
                    return Err(
                        ConfigError::Missing(
                            "client_id must be set when refresh_token is set".to_owned(),
                        ),
                    );
                },
            };
            let client_secret = match config.client_secret {
                Some(secret) => secret,
                None => {
                    return Err(
                        ConfigError::Missing(
                            "client_secret must be set when refresh_token is set".to_owned(),
                        ),
                    );
                },
            };
            Ok(
                Credential::Refreshable {
                    access_token: None,
                    expires_at: None,
                    refresh_token,
                    client_id,
                    client_secret,
                },
            )
        },
    }
}

/// Setting both `access_token` and `refresh_token` is a conflict, whatever
/// `client_id` and `client_secret` hold.
pub proof fn lemma_both_tokens_conflict(c: Config, r: Result<Credential, ConfigError>)
    requires
        (c.access_token is Some),
        (c.refresh_token is Some),
        resolves(c, r),
    ensures
        is_conflicting(r, conflicting_tokens_msg()),
{
}

/// Setting neither `access_token` nor `refresh_token` is the
/// missing-credential error.
pub proof fn lemma_no_token_missing(c: Config, r: Result<Credential, ConfigError>)
    requires
        (c.access_token is None),
        (c.refresh_token is None),
        resolves(c, r),
    ensures
        is_missing(r, missing_token_msg()),
{
}

/// With only `refresh_token` set, a missing `client_id` is reported first,
/// then a missing `client_secret`.
pub proof fn lemma_refresh_needs_client(c: Config, r: Result<Credential, ConfigError>)
    requires
        (c.access_token is None),
        (c.refresh_token is Some),
        resolves(c, r),
    ensures
        c.client_id is None ==> is_missing(r, missing_client_id_msg()),
        c.client_id is Some && c.client_secret is None ==> is_missing(
            r,
            missing_client_secret_msg(),
        ),
{
}

} // verus!
