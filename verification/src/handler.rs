//! What the request handlers decide, between reading a request and writing
//! the response: login, logout, registration, and the posts routes.

use vstd::prelude::*;

use crate::clock::{clock_time, current_time, utc_timestamp_micros};
use crate::cookie::{
    access_cookie_name, access_cookie_spec, access_token_cookie, refresh_cookie_name,
    refresh_cookie_spec, refresh_token_cookie, removal_cookie, removal_cookie_spec, SessionCookie,
};
use crate::credential::{
    argon2_accepts, generate_hash_password, password_fits, phc_reprint, read_stored_hash,
    verify_hashed_password,
};
use crate::error::{
    ApiError, CredentialError, InternalFault, IssueError, RepositoryError, TokenError,
};
use crate::identity::{parse_uuid, uuid_new_v4, uuid_print, uuid_text, uuid_value};
use crate::model::{Claim, ClaimView, NewPost, Post, User, UserLogin, UserRegistration};
use crate::session::{issue_session_at, Session, SessionConfig};
use crate::token::{
    decode_result, issued_claims, jwt_encoding, lifetime_always_fits, lifetime_fits,
};

verus! {

/// The two cookies that a login or a logout response sets.
#[derive(Debug)]
pub struct SessionCookies {
    pub access: SessionCookie,
    pub refresh: SessionCookie,
}

/// What a login attempt comes to before any token is issued.
#[derive(Clone, Copy, Debug, PartialEq, Eq, Structural)]
pub enum LoginDecision {
    /// No user has the email address.
    UserNotFound,
    /// The user's stored hash cannot be read, or the password does not match
    /// it.
    InvalidCredentials,
    /// The password matches: a session is due.
    Granted,
}

/// The decision on a login with `password`, where `found` is the user that
/// the repository holds under the email address.
pub open spec fn login_decision(found: Option<&User>, password: Seq<char>) -> LoginDecision {
    match found {
        None => LoginDecision::UserNotFound,
        Some(user) => match phc_reprint(user.password@) {
            None => LoginDecision::InvalidCredentials,
            Some(stored) => if argon2_accepts(password, stored) {
                LoginDecision::Granted
            } else {
                LoginDecision::InvalidCredentials
            },
        },
    }
}

/// The response to a granted login, given how issuing the session went.
pub open spec fn granted(
    r: Result<SessionCookies, ApiError>,
    session: Result<Session, IssueError>,
    config: SessionConfig,
    now: nat,
) -> bool {
    match session {
        Ok(tokens) if now + config.refresh_lifetime <= usize::MAX => {
            &&& r matches Ok(cookies)
            &&& cookies.access@ == access_cookie_spec(tokens.access_token@)
            &&& cookies.refresh@ == refresh_cookie_spec(
                tokens.refresh_token@,
                (now + config.refresh_lifetime) as usize,
            )
        },
        _ => r == Err::<SessionCookies, ApiError>(ApiError::Internal(InternalFault::TokenIssue)),
    }
}

/// What holds of the response to a granted login of `subject` at `now`.
///
/// Where both lifetimes can be granted, the response carries both cookies,
/// each with a token issued to the subject at `now`, which decodes to that
/// subject until it expires; the refresh cookie is kept until the refresh
/// token expires. Where a lifetime cannot be granted, the server is at
/// fault.
pub open spec fn session_granted(
    r: Result<SessionCookies, ApiError>,
    subject: Seq<char>,
    config: SessionConfig,
    now: nat,
) -> bool {
    let secret = config.secret@;
    let access_lifetime = config.access_lifetime as nat;
    let refresh_lifetime = config.refresh_lifetime as nat;
    let access_token = jwt_encoding(subject, now, now + access_lifetime, secret);
    let refresh_token = jwt_encoding(subject, now, now + refresh_lifetime, secret);
    if lifetime_fits(access_lifetime, now) && lifetime_fits(refresh_lifetime, now) {
        &&& r matches Ok(cookies)
        &&& cookies.access@ == access_cookie_spec(access_token)
        &&& cookies.refresh@ == refresh_cookie_spec(
            refresh_token,
            (now + refresh_lifetime) as usize,
        )
        &&& forall|at: nat| #[trigger]
            decode_result(access_token, secret, at) == if at < now + access_lifetime {
                Ok::<ClaimView, TokenError>(issued_claims(subject, access_lifetime, now))
            } else {
                Err::<ClaimView, TokenError>(TokenError::Expired)
            }
        &&& forall|at: nat| #[trigger]
            decode_result(refresh_token, secret, at) == if at < now + refresh_lifetime {
                Ok::<ClaimView, TokenError>(issued_claims(subject, refresh_lifetime, now))
            } else {
                Err::<ClaimView, TokenError>(TokenError::Expired)
            }
    } else {
        r == Err::<SessionCookies, ApiError>(ApiError::Internal(InternalFault::TokenIssue))
    }
}

/// The login route's contract at time `now`.
pub open spec fn logged_in(
    r: Result<SessionCookies, ApiError>,
    found: Option<&User>,
    password: Seq<char>,
    config: SessionConfig,
    now: nat,
) -> bool {
    match login_decision(found, password) {
        LoginDecision::UserNotFound => r == Err::<SessionCookies, ApiError>(
            ApiError::UserNotFound,
        ),
        LoginDecision::InvalidCredentials => r == Err::<SessionCookies, ApiError>(
            ApiError::InvalidCredentials,
        ),
        LoginDecision::Granted => session_granted(r, uuid_text(found->Some_0.id), config, now),
    }
}

/// Answers a granted login: with a session whose refresh token expires
/// within the machine word, both cookies; otherwise a fault of the server.
pub fn grant(session: Result<Session, IssueError>, config: &SessionConfig, now: usize) -> (r:
    Result<SessionCookies, ApiError>)
    ensures
        granted(r, session, *config, now as nat),
{
    match session {
        Ok(tokens) => {
            if config.refresh_lifetime > usize::MAX - now {
                return Err(ApiError::Internal(InternalFault::TokenIssue));
            }
            Ok(
                SessionCookies {
                    access: access_token_cookie(tokens.access_token),
                    refresh: refresh_token_cookie(
                        tokens.refresh_token,
                        now + config.refresh_lifetime,
                    ),
                },
            )
        },
        Err(_) => Err(ApiError::Internal(InternalFault::TokenIssue)),
    }
}

/// Decides a login at time `now`.
///
/// `found` is the user that the repository holds under the email address of
/// `credentials`, if any. An unknown user is not found. A stored hash that
/// cannot be read and a password that does not match are refused alike, as
/// invalid credentials and without detail. A matching password is answered
/// with the two session cookies, wherever both lifetimes can be granted.
pub fn login_at(
    found: Option<&User>,
    credentials: &UserLogin,
    config: &SessionConfig,
    now: usize,
) -> (r: Result<SessionCookies, ApiError>)
    ensures
        logged_in(r, found, credentials.password@, *config, now as nat),
{
    let user = match found {
        Some(user) => user,
        None => {
            return Err(ApiError::UserNotFound);
        },
    };
    let stored = match read_stored_hash(user.password.as_str()) {
        Some(stored) => stored,
        None => {
            return Err(ApiError::InvalidCredentials);
        },
    };
    if verify_hashed_password(credentials.password.as_str(), stored.as_str()).is_err() {
        return Err(ApiError::InvalidCredentials);
    }
    let subject = uuid_print(user.id);
    let session = issue_session_at(subject.as_str(), config, now);
    grant(session, config, now)
}

/// Decides a login as of the current time.
///
/// The response is that of [`login_at`] at the time the clock showed.
/// Whatever it showed, a login that is not granted fails as [`login_at`]
/// says, and a granted one gets both cookies where both lifetimes can
/// always be granted.
pub fn user_login_handler(found: Option<&User>, credentials: &UserLogin, config: &SessionConfig) -> (r:
    Result<SessionCookies, ApiError>)
    ensures
        exists|now: nat|
            clock_time(now) && #[trigger] logged_in(
                r,
                found,
                credentials.password@,
                *config,
                now,
            ),
        login_decision(found, credentials.password@) == LoginDecision::UserNotFound ==> r == Err::<
            SessionCookies,
            ApiError,
        >(ApiError::UserNotFound),
        login_decision(found, credentials.password@) == LoginDecision::InvalidCredentials ==> r
            == Err::<SessionCookies, ApiError>(ApiError::InvalidCredentials),
        login_decision(found, credentials.password@) == LoginDecision::Granted
            && lifetime_always_fits(config.access_lifetime as nat) && lifetime_always_fits(
            config.refresh_lifetime as nat,
        ) ==> r is Ok,
{
    let now = current_time();
    let r = login_at(found, credentials, config, now);
    assert(logged_in(r, found, credentials.password@, *config, now as nat));
    r
}

/// The cookies of a logout response: one removal cookie for each token.
/// Every call gives the same two cookies.
pub fn user_logout_handler() -> (cookies: SessionCookies)
    ensures
        cookies.access@ == removal_cookie_spec(access_cookie_name()),
        cookies.refresh@ == removal_cookie_spec(refresh_cookie_name()),
{
    SessionCookies {
        access: removal_cookie("access_token"),
        refresh: removal_cookie("refresh_token"),
    }
}

/// Makes the user record of a registration, given a fresh id and how hashing
/// the password went.
pub fn registered(id: u128, body: &UserRegistration, hashed: Result<String, CredentialError>) -> (r:
    Result<User, ApiError>)
    ensures
        match hashed {
            Ok(hash) => {
                &&& r matches Ok(user)
                &&& user.id == id
                &&& user.name@ == body.name@
                &&& user.email@ == body.email@
                &&& user.password@ == hash@
            },
            Err(_) => r == Err::<User, ApiError>(
                ApiError::Internal(InternalFault::PasswordHashing),
            ),
        },
{
    match hashed {
        Ok(hash) => Ok(
            User { id, name: body.name.clone(), email: body.email.clone(), password: hash },
        ),
        Err(_) => Err(ApiError::Internal(InternalFault::PasswordHashing)),
    }
}

/// Prepares the user record that a registration stores: a fresh random id,
/// name and email as given, and a hash that accepts the given password.
/// Every registration whose password fits gets its record. No session is
/// issued: the user logs in separately.
pub fn user_registration_handler(body: &UserRegistration) -> (r: Result<User, ApiError>)
    ensures
        password_fits(body.password@) ==> r is Ok,
        match r {
            Ok(user) => {
                &&& user.name@ == body.name@
                &&& user.email@ == body.email@
                &&& argon2_accepts(body.password@, user.password@)
            },
            Err(e) => e == ApiError::Internal(InternalFault::PasswordHashing),
        },
{
    let id = uuid_new_v4();
    let hashed = generate_hash_password(body.password.as_str());
    registered(id, body, hashed)
}

/// The failure of a registration that the repository refused: a conflict
/// means that the email address is taken; anything else is a fault of the
/// server.
pub fn registration_failure(error: RepositoryError) -> (failure: ApiError)
    ensures
        failure == (match error {
            RepositoryError::Conflict => ApiError::EmailTaken,
            _ => ApiError::Internal(InternalFault::Database),
        }),
{
    match error {
        RepositoryError::Conflict => ApiError::EmailTaken,
        _ => ApiError::Internal(InternalFault::Database),
    }
}

/// The author of a post, read from the claims attached to the request.
pub open spec fn author_of(claims: Option<&Claim>) -> Result<u128, ApiError> {
    match claims {
        None => Err(ApiError::NoClaimsFound),
        Some(claims) => match uuid_value(claims.sub@) {
            Some(id) => Ok(id),
            None => Err(ApiError::Internal(InternalFault::UuidParse)),
        },
    }
}

/// Reads the author of a post from the claims attached to the request. A
/// protected handler that finds no claims reports that, which is an error of
/// the caller and none of the middleware's rejections.
pub fn post_author(claims: Option<&Claim>) -> (r: Result<u128, ApiError>)
    ensures
        r == author_of(claims),
{
    match claims {
        None => Err(ApiError::NoClaimsFound),
        Some(claims) => parse_uuid(claims.sub.as_str()),
    }
}

/// Prepares the post that the create route stores: a fresh random id, the
/// author read from the attached claims, title and content as given, and the
/// current time as both time stamps.
pub fn create_post_handler(claims: Option<&Claim>, body: &NewPost) -> (r: Result<Post, ApiError>)
    ensures
        match author_of(claims) {
            Ok(author) => {
                &&& r matches Ok(post)
                &&& post.user_id == author
                &&& post.title@ == body.title@
                &&& post.content@ == body.content@
                &&& post.created_at is Some
                &&& post.updated_at is Some
            },
            Err(e) => r == Err::<Post, ApiError>(e),
        },
{
    let id = uuid_new_v4();
    let user_id = match post_author(claims) {
        Ok(user_id) => user_id,
        Err(e) => {
            return Err(e);
        },
    };
    let created_at = utc_timestamp_micros();
    let updated_at = utc_timestamp_micros();
    Ok(
        Post {
            id,
            user_id,
            title: body.title.clone(),
            content: body.content.clone(),
            created_at: Some(created_at),
            updated_at: Some(updated_at),
        },
    )
}

/// The failure of creating a post that the repository refused: a conflict
/// means that the title is taken; anything else is a fault of the server.
pub fn create_post_failure(error: RepositoryError) -> (failure: ApiError)
    ensures
        failure == (match error {
            RepositoryError::Conflict => ApiError::PostTitleTaken,
            _ => ApiError::Internal(InternalFault::Database),
        }),
{
    match error {
        RepositoryError::Conflict => ApiError::PostTitleTaken,
        _ => ApiError::Internal(InternalFault::Database),
    }
}

/// The failure of editing or deleting a post that the repository refused:
/// no row means that there is no such post; anything else is a fault of the
/// server.
pub fn post_lookup_failure(error: RepositoryError) -> (failure: ApiError)
    ensures
        failure == (match error {
            RepositoryError::NotFound => ApiError::PostNotFound,
            _ => ApiError::Internal(InternalFault::Database),
        }),
{
    match error {
        RepositoryError::NotFound => ApiError::PostNotFound,
        _ => ApiError::Internal(InternalFault::Database),
    }
}

/// A granted login, at a time when both lifetimes can be granted, is
/// answered with both cookies. The access cookie is kept for the browser
/// session and the refresh cookie until the refresh token expires. Each
/// carries a token that decodes at `now` to the user's printed id, issued at
/// `now` with the lifetime of its class. The two tokens differ wherever the
/// two lifetimes do.
pub proof fn lemma_granted_login(
    r: Result<SessionCookies, ApiError>,
    found: Option<&User>,
    password: Seq<char>,
    config: SessionConfig,
    now: nat,
)
    requires
        logged_in(r, found, password, config, now),
        login_decision(found, password) == LoginDecision::Granted,
        lifetime_fits(config.access_lifetime as nat, now),
        lifetime_fits(config.refresh_lifetime as nat, now),
    ensures
        ({
            let subject = uuid_text(found->Some_0.id);
            let secret = config.secret@;
            let access_lifetime = config.access_lifetime as nat;
            let refresh_lifetime = config.refresh_lifetime as nat;
            &&& r matches Ok(cookies)
            &&& cookies.access@ == access_cookie_spec(cookies.access.value@)
            &&& cookies.refresh@ == refresh_cookie_spec(
                cookies.refresh.value@,
                (now + refresh_lifetime) as usize,
            )
            &&& decode_result(cookies.access.value@, secret, now) == Ok::<ClaimView, TokenError>(
                issued_claims(subject, access_lifetime, now),
            )
            &&& decode_result(cookies.refresh.value@, secret, now) == Ok::<ClaimView, TokenError>(
                issued_claims(subject, refresh_lifetime, now),
            )
            &&& access_lifetime != refresh_lifetime ==> cookies.access.value@
                != cookies.refresh.value@
        }),
{
}

} // verus!
