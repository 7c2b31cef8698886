//! The authentication middleware that every protected request passes through.
//!
//! It looks at the two token cookies of a request and decides: reject
//! the request, or forward it with the caller's claims attached, and in the
//! second case whether the response must set a fresh access-token cookie.

use vstd::prelude::*;

use crate::clock::{clock_time, current_time};
use crate::cookie::{access_cookie_header, access_cookie_name, cookie_path, set_cookie_text};
use crate::error::{ApiError, InternalFault, IssueError, Status, TokenError};
use crate::model::{Claim, ClaimView};
use crate::session::SessionConfig;
use crate::token::{
    decode_result, decode_token_at, issue_token_at, issued_at, issued_claims, jwt_encoding,
    lifetime_fits,
};

verus! {

/// The state that a request is in when it reaches the middleware.
#[derive(Clone, Copy, Debug, PartialEq, Eq, Structural)]
pub enum GateState {
    /// No access-token cookie.
    NoAccessToken,
    /// The access token is sound and has not expired.
    ValidAccess,
    /// The access token has expired and there is no refresh-token cookie.
    ExpiredAccessNoRefresh,
    /// The access token has expired; the refresh token is sound and has not.
    ExpiredAccessValidRefresh,
    /// The access token has expired; the refresh token is malformed or has
    /// expired too.
    ExpiredAccessInvalidRefresh,
    /// The access token is malformed or its signature does not verify.
    InvalidAccess,
}

/// What the middleware decides.
#[derive(Debug)]
pub enum GateOutcome {
    /// Hand the request to the handler with `claims` attached. Where
    /// `set_cookie` is present, add it to the response as a `Set-Cookie`
    /// header on the way out.
    Forward { claims: Claim, set_cookie: Option<String> },
    /// Answer with the failure; the handler does not run.
    Reject(ApiError),
}

/// The state of a request with the given cookies at time `now`. The refresh
/// token is looked at only when the access token has expired.
pub open spec fn gate_state(
    access: Option<Seq<char>>,
    refresh: Option<Seq<char>>,
    secret: Seq<char>,
    now: nat,
) -> GateState {
    match access {
        None => GateState::NoAccessToken,
        Some(access_token) => match decode_result(access_token, secret, now) {
            Ok(_) => GateState::ValidAccess,
            Err(TokenError::Malformed) => GateState::InvalidAccess,
            Err(TokenError::Expired) => match refresh {
                None => GateState::ExpiredAccessNoRefresh,
                Some(refresh_token) => match decode_result(refresh_token, secret, now) {
                    Ok(_) => GateState::ExpiredAccessValidRefresh,
                    Err(_) => GateState::ExpiredAccessInvalidRefresh,
                },
            },
        },
    }
}

/// The outcome of a rotation, given how minting the new access token went.
pub open spec fn rotated(
    out: GateOutcome,
    claims: ClaimView,
    minted: Result<String, IssueError>,
) -> bool {
    match minted {
        Ok(token) => {
            &&& out matches GateOutcome::Forward { claims: attached, set_cookie: Some(header) }
            &&& attached@ == claims
            &&& header@ == set_cookie_text(access_cookie_name(), token@, true, cookie_path())
        },
        Err(_) => out == GateOutcome::Reject(ApiError::Internal(InternalFault::TokenIssue)),
    }
}

/// What holds of the outcome of rotating the access token of the holder of
/// `claims` at time `now`.
///
/// Where the access lifetime can be granted, the request goes forward with
/// the refresh token's claims, and the response sets the access-token cookie
/// to a token freshly issued to the same subject, which decodes to that
/// subject until it expires. Where the lifetime cannot be granted, the server
/// is at fault.
pub open spec fn rotation(
    out: GateOutcome,
    claims: ClaimView,
    secret: Seq<char>,
    lifetime: nat,
    now: nat,
) -> bool {
    let token = jwt_encoding(claims.sub, now, now + lifetime, secret);
    if lifetime_fits(lifetime, now) {
        &&& out matches GateOutcome::Forward { claims: attached, set_cookie: Some(header) }
        &&& attached@ == claims
        &&& header@ == set_cookie_text(access_cookie_name(), token, true, cookie_path())
        &&& forall|at: nat| #[trigger]
            decode_result(token, secret, at) == if at < now + lifetime {
                Ok::<ClaimView, TokenError>(issued_claims(claims.sub, lifetime, now))
            } else {
                Err::<ClaimView, TokenError>(TokenError::Expired)
            }
    } else {
        out == GateOutcome::Reject(ApiError::Internal(InternalFault::TokenIssue))
    }
}

/// The transition table: what holds of the outcome `out` for a request
/// with the given cookies at time `now`.
pub open spec fn admitted(
    out: GateOutcome,
    access: Option<Seq<char>>,
    refresh: Option<Seq<char>>,
    config: SessionConfig,
    now: nat,
) -> bool {
    let secret = config.secret@;
    match gate_state(access, refresh, secret, now) {
        GateState::NoAccessToken => out == GateOutcome::Reject(ApiError::MissingToken),
        GateState::ValidAccess => {
            &&& out matches GateOutcome::Forward { claims, set_cookie }
            &&& Ok::<ClaimView, TokenError>(claims@) == decode_result(access->Some_0, secret, now)
            &&& set_cookie is None
        },
        GateState::ExpiredAccessNoRefresh => out == GateOutcome::Reject(
            ApiError::MissingRefreshToken,
        ),
        GateState::ExpiredAccessInvalidRefresh => {
            &&& decode_result(refresh->Some_0, secret, now) matches Err(e)
            &&& out == GateOutcome::Reject(ApiError::InvalidRefreshToken(e))
        },
        GateState::InvalidAccess => out == GateOutcome::Reject(ApiError::InvalidToken),
        GateState::ExpiredAccessValidRefresh => rotation(
            out,
            decode_result(refresh->Some_0, secret, now)->Ok_0,
            secret,
            config.access_lifetime as nat,
            now,
        ),
    }
}

/// The view of an optional borrowed text.
pub open spec fn cookie_view(cookie: Option<&str>) -> Option<Seq<char>> {
    match cookie {
        Some(text) => Some(text@),
        None => None,
    }
}

/// Completes a rotation: with a fresh access token the request goes forward
/// with `claims` and the response sets the access-token cookie; without one
/// the server is at fault.
pub fn rotate(claims: Claim, minted: Result<String, IssueError>) -> (out: GateOutcome)
    ensures
        rotated(out, claims@, minted),
{
    match minted {
        Ok(token) => {
            let header = access_cookie_header(token.as_str());
            GateOutcome::Forward { claims, set_cookie: Some(header) }
        },
        Err(_) => GateOutcome::Reject(ApiError::Internal(InternalFault::TokenIssue)),
    }
}

/// Decides on the cookies of one request at time `now`.
///
/// `access` and `refresh` are the values of the access-token and the
/// refresh-token cookie, where the request carries them.
pub fn authorize_at(
    access: Option<&str>,
    refresh: Option<&str>,
    config: &SessionConfig,
    now: usize,
) -> (out: GateOutcome)
    ensures
        admitted(out, cookie_view(access), cookie_view(refresh), *config, now as nat),
{
    let secret = config.secret.as_str();
    let access_token = match access {
        Some(token) => token,
        None => {
            return GateOutcome::Reject(ApiError::MissingToken);
        },
    };
    match decode_token_at(access_token, secret, now) {
        Ok(claims) => GateOutcome::Forward { claims, set_cookie: None },
        Err(TokenError::Malformed) => GateOutcome::Reject(ApiError::InvalidToken),
        Err(TokenError::Expired) => {
            let refresh_token = match refresh {
                Some(token) => token,
                None => {
                    return GateOutcome::Reject(ApiError::MissingRefreshToken);
                },
            };
            match decode_token_at(refresh_token, secret, now) {
                Ok(claims) => {
                    let minted = issue_token_at(
                        claims.sub.as_str(),
                        config.access_lifetime,
                        secret,
                        now,
                    );
                    assert(issued_at(
                        minted,
                        claims.sub@,
                        config.access_lifetime as nat,
                        secret@,
                        now as nat,
                    ));
                    rotate(claims, minted)
                },
                Err(e) => GateOutcome::Reject(ApiError::InvalidRefreshToken(e)),
            }
        },
    }
}

/// Decides on the cookies of one request as of the current time.
///
/// The outcome is that of [`authorize_at`] at the time the clock showed.
/// Whatever it showed, a request without an access token is rejected.
pub fn jwt_middleware(access: Option<&str>, refresh: Option<&str>, config: &SessionConfig) -> (out:
    GateOutcome)
    ensures
        exists|now: nat|
            clock_time(now) && #[trigger] admitted(
                out,
                cookie_view(access),
                cookie_view(refresh),
                *config,
                now,
            ),
        access is None ==> out == GateOutcome::Reject(ApiError::MissingToken),
{
    let now = current_time();
    let out = authorize_at(access, refresh, config, now);
    assert(admitted(out, cookie_view(access), cookie_view(refresh), *config, now as nat));
    out
}

/// A request whose tokens are missing, malformed or all expired is answered
/// as unauthorized, and no cookie is set.
pub proof fn lemma_without_valid_token_unauthorized(
    out: GateOutcome,
    access: Option<Seq<char>>,
    refresh: Option<Seq<char>>,
    config: SessionConfig,
    now: nat,
)
    requires
        admitted(out, access, refresh, config, now),
        gate_state(access, refresh, config.secret@, now) != GateState::ValidAccess,
        gate_state(access, refresh, config.secret@, now) != GateState::ExpiredAccessValidRefresh,
    ensures
        out matches GateOutcome::Reject(e) && e.status_spec() == Status::Unauthorized,
{
}

/// With an access lifetime that can be granted, a request goes forward
/// exactly in two states, and every other request is answered as
/// unauthorized. A cookie is set in exactly one of the two: a sound access
/// token is forwarded as it is; an expired one beside a sound refresh token
/// is forwarded with the refresh token's claims and a fresh access-token
/// cookie, whose token carries the refresh token's subject, was issued at
/// `now` and expires one access lifetime later.
pub proof fn lemma_forward_states(
    out: GateOutcome,
    access: Option<Seq<char>>,
    refresh: Option<Seq<char>>,
    config: SessionConfig,
    now: nat,
)
    requires
        admitted(out, access, refresh, config, now),
        lifetime_fits(config.access_lifetime as nat, now),
    ensures
        ({
            let state = gate_state(access, refresh, config.secret@, now);
            let secret = config.secret@;
            &&& out is Forward <==> state == GateState::ValidAccess || state
                == GateState::ExpiredAccessValidRefresh
            &&& out matches GateOutcome::Reject(e) ==> e.status_spec() == Status::Unauthorized
            &&& state == GateState::ValidAccess ==> out->set_cookie is None
            &&& state == GateState::ExpiredAccessValidRefresh ==> {
                let claims = decode_result(refresh->Some_0, secret, now)->Ok_0;
                let token = jwt_encoding(
                    claims.sub,
                    now,
                    now + config.access_lifetime as nat,
                    secret,
                );
                &&& out->claims@ == claims
                &&& out->set_cookie matches Some(header) && header@ == set_cookie_text(
                    access_cookie_name(),
                    token,
                    true,
                    cookie_path(),
                )
                &&& decode_result(access->Some_0, secret, now) == Err::<ClaimView, TokenError>(
                    TokenError::Expired,
                )
                &&& decode_result(token, secret, now) == Ok::<ClaimView, TokenError>(
                    issued_claims(claims.sub, config.access_lifetime as nat, now),
                )
            }
        }),
{
}

/// Rotation: a request with an expired access token beside a sound refresh
/// token, at a time when the access lifetime can be granted, goes forward
/// with the refresh token's claims and one access-token cookie. The cookie is
/// HTTP-only, set for the whole site and carries no expiry. Its token is not
/// the expired one: it decodes at `now` to the refresh token's subject,
/// issued at `now` and expiring one access lifetime later, not when the
/// refresh token does. Where the lifetime cannot be granted, the server is at
/// fault.
pub proof fn lemma_rotation(
    out: GateOutcome,
    access: Option<Seq<char>>,
    refresh: Option<Seq<char>>,
    config: SessionConfig,
    now: nat,
)
    requires
        admitted(out, access, refresh, config, now),
        gate_state(access, refresh, config.secret@, now) == GateState::ExpiredAccessValidRefresh,
    ensures
        ({
            let secret = config.secret@;
            let lifetime = config.access_lifetime as nat;
            let holder = decode_result(refresh->Some_0, secret, now)->Ok_0;
            let token = jwt_encoding(holder.sub, now, now + lifetime, secret);
            &&& lifetime_fits(lifetime, now) ==> {
                &&& out matches GateOutcome::Forward { claims, set_cookie: Some(header) }
                &&& claims@ == holder
                &&& header@ == access_cookie_name() + "="@ + token + "; HttpOnly"@ + "; Path="@
                    + cookie_path()
                &&& token != access->Some_0
                &&& decode_result(token, secret, now) == Ok::<ClaimView, TokenError>(
                    ClaimView { sub: holder.sub, iat: now, exp: now + lifetime },
                )
            }
            &&& !lifetime_fits(lifetime, now) ==> out == GateOutcome::Reject(
                ApiError::Internal(InternalFault::TokenIssue),
            )
        }),
{
}

/// An access token that was issued at `now` is admitted at every time
/// from then until it expires, whatever refresh token comes with it, and the
/// claims attached are those it was issued with.
pub proof fn lemma_issued_access_token_admits(
    issued: Result<String, IssueError>,
    subject: Seq<char>,
    refresh: Option<Seq<char>>,
    config: SessionConfig,
    now: nat,
    at: nat,
    out: GateOutcome,
)
    requires
        issued is Ok,
        issued_at(issued, subject, config.access_lifetime as nat, config.secret@, now),
        now <= at < now + config.access_lifetime,
        admitted(out, Some(issued->Ok_0@), refresh, config, at),
    ensures
        gate_state(Some(issued->Ok_0@), refresh, config.secret@, at) == GateState::ValidAccess,
        out matches GateOutcome::Forward { claims, set_cookie } && claims@.sub == subject
            && set_cookie is None,
{
    let token = issued->Ok_0@;
    assert(lifetime_fits(config.access_lifetime as nat, now));
    assert(decode_result(token, config.secret@, at) == Ok::<ClaimView, TokenError>(
        issued_claims(subject, config.access_lifetime as nat, now),
    ));
}

} // verus!
