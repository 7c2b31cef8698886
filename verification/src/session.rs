//! The session issuer: an access token and a refresh token for one identity.

use vstd::prelude::*;

use crate::clock::{clock_time, current_time};
use crate::error::IssueError;
use crate::token::{
    issue_token_at, issued_at, lifetime_always_fits, lifetime_fits, ACCESS_TOKEN_LIFETIME,
    REFRESH_TOKEN_LIFETIME,
};

verus! {

/// What token operations are configured with: the signing secret, shared by
/// both token classes, and the lifetime of each class in seconds.
#[derive(Debug)]
pub struct SessionConfig {
    pub secret: String,
    pub access_lifetime: usize,
    pub refresh_lifetime: usize,
}

impl SessionConfig {
    /// A configuration with the given secret and the standard lifetimes.
    pub fn new(secret: String) -> (config: SessionConfig)
        ensures
            config.secret == secret,
            config.access_lifetime == ACCESS_TOKEN_LIFETIME,
            config.refresh_lifetime == REFRESH_TOKEN_LIFETIME,
    {
        SessionConfig {
            secret,
            access_lifetime: ACCESS_TOKEN_LIFETIME,
            refresh_lifetime: REFRESH_TOKEN_LIFETIME,
        }
    }
}

/// A pair of tokens for one identity. Nothing of it is kept on the server.
#[derive(Debug)]
pub struct Session {
    pub access_token: String,
    pub refresh_token: String,
}

/// What holds of the outcome `r` of issuing a session to `subject` at `now`:
/// it succeeds exactly when both lifetimes can be granted, and each token is
/// issued to the subject at `now` with the lifetime of its class.
pub open spec fn session_issued_at(
    r: Result<Session, IssueError>,
    subject: Seq<char>,
    config: SessionConfig,
    now: nat,
) -> bool {
    if !lifetime_fits(config.access_lifetime as nat, now) || !lifetime_fits(
        config.refresh_lifetime as nat,
        now,
    ) {
        r == Err::<Session, IssueError>(IssueError::LifetimeOutOfRange)
    } else {
        &&& r matches Ok(session)
        &&& issued_at(
            Ok(session.access_token),
            subject,
            config.access_lifetime as nat,
            config.secret@,
            now,
        )
        &&& issued_at(
            Ok(session.refresh_token),
            subject,
            config.refresh_lifetime as nat,
            config.secret@,
            now,
        )
    }
}

/// Issues an access token and a refresh token for `subject` at time `now`.
pub fn issue_session_at(subject: &str, config: &SessionConfig, now: usize) -> (r: Result<
    Session,
    IssueError,
>)
    ensures
        session_issued_at(r, subject@, *config, now as nat),
{
    let access = issue_token_at(subject, config.access_lifetime, config.secret.as_str(), now);
    let refresh = issue_token_at(subject, config.refresh_lifetime, config.secret.as_str(), now);
    match (access, refresh) {
        (Ok(access_token), Ok(refresh_token)) => Ok(Session { access_token, refresh_token }),
        (Err(IssueError::LifetimeOutOfRange), _) => Err(IssueError::LifetimeOutOfRange),
        (_, Err(IssueError::LifetimeOutOfRange)) => Err(IssueError::LifetimeOutOfRange),
        _ => Err(IssueError::Encoding),
    }
}

/// Issues an access token and a refresh token for `subject` as of the
/// current time.
///
/// The result is that of [`issue_session_at`] at the time the clock showed.
/// Whatever it showed, two lifetimes that can always be granted get a
/// session.
pub fn issue_session(subject: &str, config: &SessionConfig) -> (r: Result<Session, IssueError>)
    ensures
        exists|now: nat| clock_time(now) && #[trigger] session_issued_at(r, subject@, *config, now),
        lifetime_always_fits(config.access_lifetime as nat) && lifetime_always_fits(
            config.refresh_lifetime as nat,
        ) ==> r is Ok,
        r is Err ==> r == Err::<Session, IssueError>(IssueError::LifetimeOutOfRange),
{
    let now = current_time();
    let r = issue_session_at(subject, config, now);
    assert(session_issued_at(r, subject@, *config, now as nat));
    r
}

} // verus!
