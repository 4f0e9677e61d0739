//! The client's GitHub token logic: source selection, cache expiry, and
//! the interpretation of the remote token endpoint's status.

use vstd::prelude::*;

verus! {

/// Margin subtracted from a token's lifetime before it counts as
/// expired, in seconds.
pub const EXPIRY_MARGIN_SECS: i64 = 30;

/// Where a GitHub access token came from.
#[derive(Clone, Copy, PartialEq, Eq, Structural, Debug)]
pub enum GitHubTokenSource {
    PersonalAccessToken,
    ClerkOAuth,
}

/// A GitHub access token with its expiry and origin.
pub struct GitHubAccessToken {
    pub token: String,
    pub expires_at: Option<i64>,
    pub source: GitHubTokenSource,
}

impl GitHubAccessToken {
    /// Field-for-field copy.
    pub fn dup(&self) -> (r: Self)
        ensures
            r == *self,
    {
        GitHubAccessToken {
            token: self.token.clone(),
            expires_at: self.expires_at,
            source: self.source,
        }
    }
}

/// Why no GitHub token could be produced.
#[derive(Debug)]
pub enum GitHubTokenError {
    /// No remote endpoint is configured.
    RemoteNotConfigured,
    /// No active identity session exists.
    MissingClerkSession,
    /// The GitHub account is not linked at the provider.
    NotLinked,
    /// The token's expiry timestamp is out of range.
    InvalidExpiry(i64),
    /// The token endpoint URL could not be built; carries the message.
    InvalidEndpoint(String),
    /// The token endpoint answered an unexpected status.
    UnexpectedStatus(u16),
    /// The HTTP call itself failed; carries its message.
    Http(String),
}

impl GitHubTokenError {
    /// Whether the failure means "no token is configured or available",
    /// as opposed to a transport or data fault.
    pub fn is_missing_token(&self) -> (r: bool)
        ensures
            r == (self is RemoteNotConfigured || self is MissingClerkSession
                || self is NotLinked),
    {
        match self {
            GitHubTokenError::RemoteNotConfigured => true,
            GitHubTokenError::MissingClerkSession => true,
            GitHubTokenError::NotLinked => true,
            _ => false,
        }
    }
}

/// A cached token entry.
pub struct CachedToken {
    pub token: GitHubAccessToken,
}

impl CachedToken {
    /// The entry is expired at `now` when its expiry, less the safety
    /// margin, has been reached; a token without expiry never expires.
    pub open spec fn spec_is_expired(self, now: i64) -> bool {
        match self.token.expires_at {
            Some(expires_at) => expires_at <= now + EXPIRY_MARGIN_SECS,
            None => false,
        }
    }

    /// Whether the entry is expired at `now` (epoch seconds).
    pub fn is_expired(&self, now: i64) -> (r: bool)
        ensures
            r == self.spec_is_expired(now),
    {
        match self.token.expires_at {
            Some(expires_at) => (expires_at as i128) <= (now as i128) + (
            EXPIRY_MARGIN_SECS as i128),
            None => false,
        }
    }
}

/// The next move when a GitHub token is needed.
pub enum TokenStep {
    /// Use the configured personal access token.
    UsePersonalAccessToken(GitHubAccessToken),
    /// Use the still-valid cached token.
    UseCached(GitHubAccessToken),
    /// No active session: fail with `MissingClerkSession`.
    NoSession,
    /// Fetch a fresh token from the remote endpoint.
    FetchRemote,
}

/// Decides where the next GitHub token comes from: a configured
/// personal access token always wins, then a still-valid cached token,
/// then a remote fetch — which requires an active session.
pub fn token_decision(
    personal_access_token: Option<&String>,
    cached: Option<&CachedToken>,
    session_active: bool,
    now: i64,
) -> (r: TokenStep)
    ensures
        match personal_access_token {
            Some(pat) => (r matches TokenStep::UsePersonalAccessToken(t) && t.token@ == pat@
                && t.expires_at is None && t.source is PersonalAccessToken),
            None => match cached {
                Some(c) => if !c.spec_is_expired(now) {
                    r matches TokenStep::UseCached(t) && t == c.token
                } else if session_active {
                    r is FetchRemote
                } else {
                    r is NoSession
                },
                None => if session_active {
                    r is FetchRemote
                } else {
                    r is NoSession
                },
            },
        },
{
    if let Some(pat) = personal_access_token {
        return TokenStep::UsePersonalAccessToken(
            GitHubAccessToken {
                token: pat.clone(),
                expires_at: None,
                source: GitHubTokenSource::PersonalAccessToken,
            },
        );
    }
    if let Some(c) = cached {
        if !c.is_expired(now) {
            return TokenStep::UseCached(c.token.dup());
        }
    }
    if session_active {
        TokenStep::FetchRemote
    } else {
        TokenStep::NoSession
    }
}

/// Interprets the remote token endpoint's HTTP status: success, an
/// unlinked account, a lost session, or an unexpected answer.
pub fn github_token_status(status: u16) -> (r: Result<(), GitHubTokenError>)
    ensures
        status == 200 ==> r is Ok,
        status == 412 ==> (r matches Err(e) && e is NotLinked),
        status == 401 || status == 403 ==> (r matches Err(e) && e is MissingClerkSession),
        status != 200 && status != 412 && status != 401 && status != 403 ==> (r matches Err(
            GitHubTokenError::UnexpectedStatus(s),
        ) && s == status),
{
    if status == 200 {
        Ok(())
    } else if status == 412 {
        Err(GitHubTokenError::NotLinked)
    } else if status == 401 || status == 403 {
        Err(GitHubTokenError::MissingClerkSession)
    } else {
        Err(GitHubTokenError::UnexpectedStatus(status))
    }
}

/// Whether a failed GitHub call should drop the cached token: only a
/// token the provider minted can go stale this way.
pub fn should_invalidate_token(token_invalid: bool, source: &GitHubTokenSource) -> (r: bool)
    ensures
        r == (token_invalid && source is ClerkOAuth),
{
    token_invalid && match source {
        GitHubTokenSource::ClerkOAuth => true,
        GitHubTokenSource::PersonalAccessToken => false,
    }
}

} // verus!
