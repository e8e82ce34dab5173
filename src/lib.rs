//! Credentials for a Dropbox storage backend: checking the configured
//! options, and keeping an OAuth2 bearer token valid by refreshing it.

pub mod builder;
mod clock;
pub mod credential;
pub mod refresh;
pub mod root;

pub use builder::{DropboxBuilder, DropboxCore};
pub use credential::{resolve, Config, ConfigError, Credential};
pub use refresh::{
    token_grant, AuthError, RefreshCause, RefreshRequest, TokenGrant, TokenReply, TokenStep,
    REFRESH_MARGIN_SECS, TOKEN_URL,
};
pub use root::normalize_root;
