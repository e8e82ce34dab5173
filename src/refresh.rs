use vstd::prelude::*;

use crate::clock::unix_now;
use crate::credential::Credential;

verus! {

/// A cached token is only used while more than this many seconds of its
/// validity remain, so that it does not expire while a request is in flight.
pub const REFRESH_MARGIN_SECS: i64 = 60;

/// The identity provider's endpoint that exchanges a refresh token.
pub const TOKEN_URL: &'static str = "https://api.dropboxapi.com/oauth2/token";

/// What is needed to ask the identity provider for a new bearer token.
#[derive(Clone, PartialEq, Eq)]
pub struct RefreshRequest {
    pub refresh_token: String,
    pub client_id: String,
    pub client_secret: String,
}

/// What to do to obtain a token that is valid now.
#[derive(Clone, PartialEq, Eq)]
pub enum TokenStep {
    /// This token can be used as it is.
    Ready(String),
    /// A refresh round trip with this request is needed.
    Refresh(RefreshRequest),
}

/// The token endpoint's answer, as the transport decoded it.
#[derive(Clone, PartialEq, Eq)]
pub struct TokenReply {
    /// HTTP status of the response.
    pub status: u16,
    /// The `access_token` field of the body, if it had one.
    pub access_token: Option<String>,
    /// The `expires_in` field of the body (seconds), if it had one.
    pub expires_in: Option<u64>,
    /// Why the body could not be decoded, if it could not.
    pub decode_error: Option<String>,
}

/// A new bearer token and how many seconds it stays valid.
#[derive(Clone, PartialEq, Eq)]
pub struct TokenGrant {
    pub access_token: String,
    pub expires_in: u64,
}

/// Why a refresh round trip did not produce a token.
#[derive(Debug, Clone, PartialEq, Eq)]
pub enum RefreshCause {
    /// The request could not be sent or its answer not received.
    Transport(String),
    /// The endpoint answered with a status outside 200..=299.
    Status(u16),
    /// The answer's body could not be decoded, or lacked a token or its
    /// validity; the text says which.
    Malformed(String),
}

/// Why no valid token could be handed out.
#[derive(Debug, Clone, PartialEq, Eq)]
pub enum AuthError {
    RefreshFailed(RefreshCause),
}

/// The credential holds a token that may be used at time `now`.
pub open spec fn is_fresh_at(c: Credential, now: int) -> bool {
    match c {
        Credential::Fixed { .. } => true,
        Credential::Refreshable { access_token, expires_at, .. } => {
            &&& access_token is Some
            &&& expires_at is Some
            &&& now + REFRESH_MARGIN_SECS < expires_at.unwrap()
        },
    }
}

/// The step that the credential `c` calls for at time `now`.
pub open spec fn step_at(c: Credential, now: int) -> TokenStep {
    match c {
        Credential::Fixed { access_token } => TokenStep::Ready(access_token),
        Credential::Refreshable { access_token, refresh_token, client_id, client_secret, .. } => {
            if is_fresh_at(c, now) {
                TokenStep::Ready(access_token.unwrap())
            } else {
                TokenStep::Refresh(RefreshRequest { refresh_token, client_id, client_secret })
            }
        },
    }
}

/// The Unix time at which a token granted at `now` for `expires_in`
/// seconds expires, held at `i64::MAX` when the sum does not fit.
pub open spec fn expiry_of(now: int, expires_in: int) -> int {
    if now + expires_in > i64::MAX {
        i64::MAX as int
    } else {
        now + expires_in
    }
}

/// The credential after a refresh with outcome `outcome` completed at `now`.
pub open spec fn after_refresh(
    c: Credential,
    outcome: Result<TokenGrant, RefreshCause>,
    now: int,
) -> Credential {
    match (c, outcome) {
        (
            Credential::Refreshable { refresh_token, client_id, client_secret, .. },
            Ok(grant),
        ) => Credential::Refreshable {
            access_token: Some(grant.access_token),
            expires_at: Some(expiry_of(now, grant.expires_in as int) as i64),
            refresh_token,
            client_id,
            client_secret,
        },
        _ => c,
    }
}

/// What a refresh with outcome `outcome` hands to the caller.
pub open spec fn refresh_result(
    c: Credential,
    outcome: Result<TokenGrant, RefreshCause>,
) -> Result<String, AuthError> {
    match (c, outcome) {
        (Credential::Fixed { access_token }, _) => Ok(access_token),
        (_, Ok(grant)) => Ok(grant.access_token),
        (_, Err(cause)) => Err(AuthError::RefreshFailed(cause)),
    }
}

/// The message when a decoded answer has no `access_token`.
pub open spec fn no_access_token_msg() -> Seq<char> {
    "access_token missing from the token response"@
}

/// The message when a decoded answer has no `expires_in`.
pub open spec fn no_expires_in_msg() -> Seq<char> {
    "expires_in missing from the token response"@
}

/// `r` is a `Malformed` cause with message `msg`.
pub open spec fn is_malformed(r: Result<TokenGrant, RefreshCause>, msg: Seq<char>) -> bool {
    match r {
        Err(RefreshCause::Malformed(m)) => m@ == msg,
        _ => false,
    }
}

/// `r` is the outcome that the transport's result `sent` amounts to.
pub open spec fn is_grant_of(
    sent: Result<TokenReply, String>,
    r: Result<TokenGrant, RefreshCause>,
) -> bool {
    match sent {
        Err(e) => r == Err::<TokenGrant, RefreshCause>(RefreshCause::Transport(e)),
        Ok(reply) => if !(200 <= reply.status <= 299) {
            r == Err::<TokenGrant, RefreshCause>(RefreshCause::Status(reply.status))
        } else {
            match (reply.decode_error, reply.access_token, reply.expires_in) {
                (Some(e), _, _) => r == Err::<TokenGrant, RefreshCause>(
                    RefreshCause::Malformed(e),
                ),
                (None, None, _) => is_malformed(r, no_access_token_msg()),
                (None, Some(_), None) => is_malformed(r, no_expires_in_msg()),
                (None, Some(access_token), Some(expires_in)) => {
                    r == Ok::<TokenGrant, RefreshCause>(TokenGrant { access_token, expires_in })
                },
            }
        },
    }
}

/// Turns what the transport brought back from the token endpoint into a
/// grant, or the cause of the failure.
pub fn token_grant(sent: Result<TokenReply, String>) -> (r: Result<TokenGrant, RefreshCause>)
    ensures
        is_grant_of(sent, r),
{
    match sent {
        Err(e) => Err(RefreshCause::Transport(e)),
        Ok(reply) => {
            if reply.status < 200 || reply.status > 299 {
                Err(RefreshCause::Status(reply.status))
            } else {
                match (reply.decode_error, reply.access_token, reply.expires_in) {
                    (Some(e), _, _) => Err(RefreshCause::Malformed(e)),
                    (None, None, _) => Err(
                        RefreshCause::Malformed(
                            "access_token missing from the token response".to_owned(),
                        ),
                    ),
                    (None, Some(_), None) => Err(
                        RefreshCause::Malformed(
                            "expires_in missing from the token response".to_owned(),
                        ),
                    ),
                    (None, Some(access_token), Some(expires_in)) => Ok(
                        TokenGrant { access_token, expires_in },
                    ),
                }
            }
        },
    }
}

/// The body of the form-encoded POST that exchanges the refresh token.
pub open spec fn request_body_of(req: RefreshRequest) -> Seq<char> {
    "grant_type=refresh_token&refresh_token="@ + req.refresh_token@ + "&client_id="@
        + req.client_id@ + "&client_secret="@ + req.client_secret@
}

impl RefreshRequest {
    /// The form body to POST to `TOKEN_URL`.
    pub fn body(&self) -> (r: String)
        ensures
            r@ == request_body_of(*self),
    {
        let mut s = String::from_str("grant_type=refresh_token&refresh_token=");
        s.append(self.refresh_token.as_str());
        s.append("&client_id=");
        s.append(self.client_id.as_str());
        s.append("&client_secret=");
        s.append(self.client_secret.as_str());
        s
    }
}

impl Credential {
    /// Whether the credential holds a token that may be used at `now`.
    pub fn is_fresh_at(&self, now: i64) -> (r: bool)
        ensures
            r == is_fresh_at(*self, now as int),
    {
        match self {
            Credential::Fixed { .. } => true,
            Credential::Refreshable { access_token, expires_at, .. } => {
                match (access_token, expires_at) {
                    (Some(_), Some(at)) => {
                        (now as i128) + (REFRESH_MARGIN_SECS as i128) < (*at as i128)
                    },
                    _ => false,
                }
            },
        }
    }

    /// What to do at time `now` to obtain a valid token: use the one held,
    /// or refresh.
    pub fn step_at(&self, now: i64) -> (r: TokenStep)
        ensures
            r == step_at(*self, now as int),
    {
        let fresh = self.is_fresh_at(now);
        match self {
            Credential::Fixed { access_token } => TokenStep::Ready(access_token.clone()),
            Credential::Refreshable { access_token, refresh_token, client_id, client_secret, .. } => {
                if fresh {
                    match access_token {
                        Some(token) => TokenStep::Ready(token.clone()),
                        None => TokenStep::Refresh(
                            RefreshRequest {
                                refresh_token: refresh_token.clone(),
                                client_id: client_id.clone(),
                                client_secret: client_secret.clone(),
                            },
                        ),
                    }
                } else {
                    TokenStep::Refresh(
                        RefreshRequest {
                            refresh_token: refresh_token.clone(),
                            client_id: client_id.clone(),
                            client_secret: client_secret.clone(),
                        },
                    )
                }
            },
        }
    }

    /// What to do now to obtain a valid token, by the system clock.
    pub fn next_step(&self) -> (r: TokenStep)
        ensures
            exists|now: int| r == #[trigger] step_at(*self, now),
            self is Fixed ==> r == step_at(*self, 0),
    {
        let now = unix_now();
        self.step_at(now)
    }

    /// Records the outcome of a refresh that completed at `now`, and returns
    /// the token to use or the failure. A failed refresh leaves the
    /// credential as it was; a fixed credential is never changed.
    pub fn apply_refresh_at(
        &mut self,
        outcome: Result<TokenGrant, RefreshCause>,
        now: i64,
    ) -> (r: Result<String, AuthError>)
        ensures
            *final(self) == after_refresh(*old(self), outcome, now as int),
            r == refresh_result(*old(self), outcome),
    {
        match self {
            Credential::Fixed { access_token } => Ok(access_token.clone()),
            Credential::Refreshable { access_token, expires_at, .. } => {
                match outcome {
                    Ok(grant) => {
                        let sum: i128 = (now as i128) + (grant.expires_in as i128);
                        let at: i64 = if sum > i64::MAX as i128 {
                            i64::MAX
                        } else {
                            sum as i64
                        };
                        let token = grant.access_token;
                        *access_token = Some(token.clone());
                        *expires_at = Some(at);
                        Ok(token)
                    },
                    Err(cause) => Err(AuthError::RefreshFailed(cause)),
                }
            },
        }
    }

    /// Records the outcome of a refresh that has just completed, by the
    /// system clock.
    pub fn apply_refresh(
        &mut self,
        outcome: Result<TokenGrant, RefreshCause>,
    ) -> (r: Result<String, AuthError>)
        ensures
            exists|now: int| *final(self) == #[trigger] after_refresh(*old(self), outcome, now),
            r == refresh_result(*old(self), outcome),
    {
        let now = unix_now();
        self.apply_refresh_at(outcome, now)
    }
}

/// The fixed credential holding `token`.
pub open spec fn fixed(token: String) -> Credential {
    Credential::Fixed { access_token: token }
}

/// A fixed token is always handed out as it is: no step ever asks for a
/// refresh, and recording a refresh outcome changes nothing.
pub proof fn lemma_fixed_never_refreshes(
    token: String,
    now: int,
    outcome: Result<TokenGrant, RefreshCause>,
    done_at: int,
)
    ensures
        step_at(fixed(token), now) == TokenStep::Ready(token),
        after_refresh(fixed(token), outcome, done_at) == fixed(token),
        refresh_result(fixed(token), outcome) == Ok::<String, AuthError>(token),
{
}

/// A refreshable credential with no token yet asks for one refresh; once it
/// succeeds at `now`, the granted token is returned, and a later check that
/// comes before the expiry (less the margin) uses it without refreshing.
pub proof fn lemma_refresh_then_cached(
    c: Credential,
    first: int,
    grant: TokenGrant,
    now: int,
    later: int,
)
    requires
        (c is Refreshable),
        (c->Refreshable_access_token is None),
        0 <= now <= i64::MAX,
        now <= later,
        later + REFRESH_MARGIN_SECS < expiry_of(now, grant.expires_in as int),
    ensures
        (step_at(c, first) is Refresh),
        refresh_result(c, Ok(grant)) == Ok::<String, AuthError>(grant.access_token),
        step_at(after_refresh(c, Ok(grant), now), later) == TokenStep::Ready(grant.access_token),
{
}

/// After a successful refresh, every caller that checks before the expiry
/// (less the margin), however many there are, gets the one granted token
/// and none of them refreshes again.
pub proof fn lemma_waiters_share_token(c: Credential, grant: TokenGrant, now: int)
    requires
        (c is Refreshable),
        0 <= now <= i64::MAX,
    ensures
        forall|t: int|
            t + REFRESH_MARGIN_SECS < expiry_of(now, grant.expires_in as int) ==> #[trigger] step_at(
                after_refresh(c, Ok(grant), now),
                t,
            ) == TokenStep::Ready(grant.access_token),
{
}

/// A failed refresh reports its cause and leaves the credential as it was,
/// so a credential that needed a refresh still needs one at any later time.
pub proof fn lemma_failed_refresh_retries(
    c: Credential,
    cause: RefreshCause,
    decided_at: int,
    done_at: int,
    later: int,
)
    requires
        (step_at(c, decided_at) is Refresh),
        decided_at <= later,
    ensures
        refresh_result(c, Err(cause)) == Err::<String, AuthError>(AuthError::RefreshFailed(cause)),
        after_refresh(c, Err(cause), done_at) == c,
        (step_at(after_refresh(c, Err(cause), done_at), later) is Refresh),
{
}

} // verus!
