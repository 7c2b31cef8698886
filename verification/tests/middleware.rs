use blog::cookie::access_cookie_header;
use blog::error::{ApiError, InternalFault, IssueError, Status, TokenError};
use blog::middleware::{authorize_at, jwt_middleware, rotate, GateOutcome};
use blog::model::Claim;
use blog::session::SessionConfig;
use blog::token::{decode_token_at, issue_token_at};

const NOW: usize = 1_000_000;

fn config() -> SessionConfig {
    SessionConfig::new("secret".to_string())
}

fn token(subject: &str, issued: usize, lifetime: usize) -> String {
    issue_token_at(subject, lifetime, "secret", issued).unwrap()
}

fn rejection(outcome: GateOutcome) -> ApiError {
    match outcome {
        GateOutcome::Reject(failure) => failure,
        GateOutcome::Forward { .. } => panic!("the request was forwarded"),
    }
}

fn forwarded(outcome: GateOutcome) -> (Claim, Option<String>) {
    match outcome {
        GateOutcome::Forward { claims, set_cookie } => (claims, set_cookie),
        GateOutcome::Reject(failure) => panic!("the request was rejected: {:?}", failure),
    }
}

#[test]
fn gate_state_no_access_token() {
    let refresh = token("u", NOW, 1000);
    for refresh in [None, Some(refresh.as_str()), Some("garbage")] {
        let failure = rejection(authorize_at(None, refresh, &config(), NOW));
        assert_eq!(failure, ApiError::MissingToken);
        assert_eq!(failure.status(), Status::Unauthorized);
    }
}

#[test]
fn gate_state_valid_access() {
    let access = token("user-7", NOW, 5);
    for refresh in [None, Some("garbage")] {
        let (claims, set_cookie) = forwarded(authorize_at(Some(&access), refresh, &config(), NOW + 4));
        assert_eq!(claims.sub, "user-7");
        assert_eq!(claims.iat, NOW);
        assert_eq!(claims.exp, NOW + 5);
        assert_eq!(set_cookie, None);
    }
}

#[test]
fn gate_state_expired_access_no_refresh() {
    let access = token("user-7", NOW, 5);
    let failure = rejection(authorize_at(Some(&access), None, &config(), NOW + 5));
    assert_eq!(failure, ApiError::MissingRefreshToken);
    assert_eq!(failure.status(), Status::Unauthorized);
}

#[test]
fn gate_state_expired_access_valid_refresh() {
    let access = token("user-7", NOW, 5);
    let refresh = token("user-7", NOW, 1000);
    let now = NOW + 5;
    let (claims, set_cookie) = forwarded(authorize_at(Some(&access), Some(&refresh), &config(), now));
    assert_eq!(claims.sub, "user-7");
    assert_eq!(claims.iat, NOW);
    assert_eq!(claims.exp, NOW + 1000);
    let header = set_cookie.unwrap();
    let fresh = token("user-7", now, 5);
    assert_eq!(header, format!("access_token={}; HttpOnly; Path=/", fresh));
    let minted = decode_token_at(&fresh, "secret", now).unwrap();
    assert_eq!(minted.sub, "user-7");
    assert_eq!(minted.iat, now);
    assert_eq!(minted.exp, now + 5);
}

#[test]
fn gate_state_expired_access_invalid_refresh() {
    let access = token("user-7", NOW, 5);
    let expired_refresh = token("user-7", NOW, 10);
    let now = NOW + 10;
    let failure = rejection(authorize_at(Some(&access), Some(&expired_refresh), &config(), now));
    assert_eq!(failure, ApiError::InvalidRefreshToken(TokenError::Expired));
    assert_eq!(failure.status(), Status::Unauthorized);
    let failure = rejection(authorize_at(Some(&access), Some("garbage"), &config(), now));
    assert_eq!(failure, ApiError::InvalidRefreshToken(TokenError::Malformed));
    let foreign = issue_token_at("user-7", 1000, "other secret", NOW).unwrap();
    let failure = rejection(authorize_at(Some(&access), Some(&foreign), &config(), now));
    assert_eq!(failure, ApiError::InvalidRefreshToken(TokenError::Malformed));
}

#[test]
fn gate_state_invalid_access() {
    let refresh = token("user-7", NOW, 1000);
    let foreign = issue_token_at("user-7", 5, "other secret", NOW).unwrap();
    for access in ["garbage", "", "a.b.c", foreign.as_str()] {
        for refresh in [None, Some(refresh.as_str())] {
            let failure = rejection(authorize_at(Some(access), refresh, &config(), NOW));
            assert_eq!(failure, ApiError::InvalidToken);
            assert_eq!(failure.status(), Status::Unauthorized);
        }
    }
}

#[test]
fn refresh_token_is_not_consulted_while_access_is_valid() {
    let access = token("user-7", NOW, 5);
    let other = token("someone else", NOW, 1000);
    let (claims, set_cookie) = forwarded(authorize_at(Some(&access), Some(&other), &config(), NOW));
    assert_eq!(claims.sub, "user-7");
    assert_eq!(set_cookie, None);
}

#[test]
fn rotation_takes_the_subject_of_the_refresh_token() {
    let access = token("user-7", NOW, 5);
    let refresh = token("user-8", NOW, 1000);
    let now = NOW + 50;
    let (claims, set_cookie) = forwarded(authorize_at(Some(&access), Some(&refresh), &config(), now));
    assert_eq!(claims.sub, "user-8");
    let header = set_cookie.unwrap();
    let value = header.strip_prefix("access_token=").unwrap();
    let value = value.strip_suffix("; HttpOnly; Path=/").unwrap();
    assert_eq!(decode_token_at(value, "secret", now).unwrap().sub, "user-8");
}

#[test]
fn rotation_uses_the_configured_access_lifetime() {
    let mut config = config();
    config.access_lifetime = 120;
    let access = token("user-7", NOW, 5);
    let refresh = token("user-7", NOW, 1000);
    let now = NOW + 6;
    let (_, set_cookie) = forwarded(authorize_at(Some(&access), Some(&refresh), &config, now));
    assert_eq!(set_cookie.unwrap(), access_cookie_header(&token("user-7", now, 120)));
}

#[test]
fn rotation_with_a_lifetime_that_cannot_be_granted_is_a_server_fault() {
    let mut config = config();
    config.access_lifetime = 0;
    let access = token("user-7", NOW, 5);
    let refresh = token("user-7", NOW, 1000);
    let failure = rejection(authorize_at(Some(&access), Some(&refresh), &config, NOW + 6));
    assert_eq!(failure, ApiError::Internal(InternalFault::TokenIssue));
    assert_eq!(failure.status(), Status::InternalServerError);
}

#[test]
fn rotation_succeeds_whenever_the_lifetime_fits() {
    for lifetime in [1, 5, 3600] {
        let mut config = config();
        config.access_lifetime = lifetime;
        let access = token("user-7", NOW, 5);
        let refresh = token("user-7", NOW, 100_000);
        for now in [NOW + 5, NOW + 6, NOW + 99_999] {
            let outcome = authorize_at(Some(&access), Some(&refresh), &config, now);
            let (claims, set_cookie) = forwarded(outcome);
            assert_eq!(claims.sub, "user-7");
            assert_eq!(set_cookie.unwrap(), access_cookie_header(&token("user-7", now, lifetime)));
        }
    }
}

#[test]
fn rotate_completes_either_way() {
    let claims = || Claim { sub: "u".to_string(), iat: 1, exp: 9 };
    let (attached, set_cookie) = forwarded(rotate(claims(), Ok("tok".to_string())));
    assert_eq!((attached.sub.as_str(), attached.iat, attached.exp), ("u", 1, 9));
    assert_eq!(set_cookie.unwrap(), "access_token=tok; HttpOnly; Path=/");
    for failure in [IssueError::Encoding, IssueError::LifetimeOutOfRange] {
        assert_eq!(
            rejection(rotate(claims(), Err(failure))),
            ApiError::Internal(InternalFault::TokenIssue)
        );
    }
}

#[test]
fn concurrent_rotations_mint_independent_tokens() {
    let access = token("user-7", NOW, 5);
    let refresh = token("user-7", NOW, 1000);
    let (_, first) = forwarded(authorize_at(Some(&access), Some(&refresh), &config(), NOW + 5));
    let (_, second) = forwarded(authorize_at(Some(&access), Some(&refresh), &config(), NOW + 6));
    let (first, second) = (first.unwrap(), second.unwrap());
    assert_ne!(first, second);
    for (header, now) in [(first, NOW + 5), (second, NOW + 6)] {
        let value = header.strip_prefix("access_token=").unwrap();
        let value = value.strip_suffix("; HttpOnly; Path=/").unwrap();
        assert!(matches!(
            authorize_at(Some(value), None, &config(), now),
            GateOutcome::Forward { set_cookie: None, .. }
        ));
    }
}

#[test]
fn middleware_reads_the_clock() {
    let now = chrono::Utc::now().timestamp() as usize;
    let config = config();
    let fresh = token("user-7", now, 1000);
    let (claims, set_cookie) = forwarded(jwt_middleware(Some(&fresh), None, &config));
    assert_eq!(claims.sub, "user-7");
    assert_eq!(set_cookie, None);

    let stale = token("user-7", now - 100, 5);
    assert_eq!(
        rejection(jwt_middleware(Some(&stale), None, &config)),
        ApiError::MissingRefreshToken
    );
    let (claims, set_cookie) = forwarded(jwt_middleware(Some(&stale), Some(&fresh), &config));
    assert_eq!(claims.sub, "user-7");
    assert!(set_cookie.unwrap().starts_with("access_token=ey"));
    assert_eq!(rejection(jwt_middleware(None, Some(&fresh), &config)), ApiError::MissingToken);
}

#[test]
fn access_cookie_header_has_the_exact_text() {
    assert_eq!(access_cookie_header("abc.def.ghi"), "access_token=abc.def.ghi; HttpOnly; Path=/");
    assert_eq!(access_cookie_header(""), "access_token=; HttpOnly; Path=/");
    assert_eq!(access_cookie_header("a b;c"), "access_token=a b;c; HttpOnly; Path=/");
}

#[test]
fn rotated_token_is_fresh_and_not_the_expired_one() {
    let access = token("user-7", NOW, 5);
    let refresh = token("user-7", NOW, 1000);
    let now = NOW + 7;
    let (claims, set_cookie) = forwarded(authorize_at(Some(&access), Some(&refresh), &config(), now));
    assert_eq!(claims.exp, NOW + 1000);
    let header = set_cookie.unwrap();
    assert!(!header.contains("Expires") && !header.contains("Max-Age"));
    assert!(!header.contains("refresh_token"));
    let value = header.strip_prefix("access_token=").unwrap();
    let value = value.strip_suffix("; HttpOnly; Path=/").unwrap();
    assert_ne!(value, access);
    let fresh = decode_token_at(value, "secret", now).unwrap();
    assert_eq!((fresh.sub.as_str(), fresh.iat, fresh.exp), ("user-7", now, now + 5));
}
