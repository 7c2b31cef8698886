use blog::cookie::CookieExpiry;
use blog::error::{ApiError, Status};
use blog::handler::{login_at, post_author, user_logout_handler, user_registration_handler};
use blog::middleware::{authorize_at, GateOutcome};
use blog::model::{UserLogin, UserRegistration};
use blog::session::SessionConfig;
use blog::token::decode_token_at;

const NOW: usize = 1_700_000_000;

fn cookie_value(header: &str) -> &str {
    header.strip_prefix("access_token=").unwrap().strip_suffix("; HttpOnly; Path=/").unwrap()
}

#[test]
fn scenario_login_then_protected_route() {
    let config = SessionConfig::new("secret".to_string());
    let body = UserRegistration {
        name: "Ada".to_string(),
        email: "ada@example.org".to_string(),
        password: "right".to_string(),
    };
    let user = user_registration_handler(&body).unwrap();
    let credentials =
        UserLogin { email: "ada@example.org".to_string(), password: "right".to_string() };
    let cookies = login_at(Some(&user), &credentials, &config, NOW).unwrap();
    assert_eq!(cookies.access.name, "access_token");
    assert_eq!(cookies.refresh.name, "refresh_token");

    let outcome =
        authorize_at(Some(&cookies.access.value), Some(&cookies.refresh.value), &config, NOW);
    match outcome {
        GateOutcome::Forward { claims, set_cookie } => {
            assert_eq!(claims.sub, uuid::Uuid::from_u128(user.id).to_string());
            assert_eq!(set_cookie, None);
            assert_eq!(post_author(Some(&claims)), Ok(user.id));
        }
        GateOutcome::Reject(failure) => panic!("rejected: {:?}", failure),
    }
}

#[test]
fn scenario_expired_access_token_is_rotated() {
    let config = SessionConfig::new("secret".to_string());
    let body = UserRegistration {
        name: "Ada".to_string(),
        email: "ada@example.org".to_string(),
        password: "right".to_string(),
    };
    let user = user_registration_handler(&body).unwrap();
    let credentials =
        UserLogin { email: "ada@example.org".to_string(), password: "right".to_string() };
    let cookies = login_at(Some(&user), &credentials, &config, NOW).unwrap();
    let later = NOW + 5;

    let outcome =
        authorize_at(Some(&cookies.access.value), Some(&cookies.refresh.value), &config, later);
    let (claims, header) = match outcome {
        GateOutcome::Forward { claims, set_cookie } => (claims, set_cookie.unwrap()),
        GateOutcome::Reject(failure) => panic!("rejected: {:?}", failure),
    };
    let refresh_claims = decode_token_at(&cookies.refresh.value, "secret", later).unwrap();
    assert_eq!(claims.sub, refresh_claims.sub);
    let fresh = decode_token_at(cookie_value(&header), "secret", later).unwrap();
    assert_eq!(fresh.sub, refresh_claims.sub);
    assert_eq!(fresh.iat, later);
    assert_eq!(fresh.exp, later + 5);

    let next = authorize_at(Some(cookie_value(&header)), None, &config, later + 4);
    assert!(matches!(next, GateOutcome::Forward { set_cookie: None, .. }));
}

#[test]
fn scenario_both_tokens_expired_or_missing() {
    let config = SessionConfig::new("secret".to_string());
    let body = UserRegistration {
        name: "Ada".to_string(),
        email: "ada@example.org".to_string(),
        password: "right".to_string(),
    };
    let user = user_registration_handler(&body).unwrap();
    let credentials =
        UserLogin { email: "ada@example.org".to_string(), password: "right".to_string() };
    let cookies = login_at(Some(&user), &credentials, &config, NOW).unwrap();
    let much_later = NOW + 31_536_000;

    let requests = [
        (None, None),
        (None, Some(cookies.refresh.value.as_str())),
        (Some(cookies.access.value.as_str()), None),
        (Some(cookies.access.value.as_str()), Some(cookies.refresh.value.as_str())),
    ];
    for (access, refresh) in requests {
        match authorize_at(access, refresh, &config, much_later) {
            GateOutcome::Reject(failure) => assert_eq!(failure.status(), Status::Unauthorized),
            GateOutcome::Forward { .. } => panic!("forwarded"),
        }
    }
    let both = authorize_at(
        Some(cookies.access.value.as_str()),
        Some(cookies.refresh.value.as_str()),
        &config,
        much_later,
    );
    assert!(matches!(
        both,
        GateOutcome::Reject(ApiError::InvalidRefreshToken(blog::error::TokenError::Expired))
    ));
}

#[test]
fn scenario_logout_then_request_without_cookies() {
    let config = SessionConfig::new("secret".to_string());
    let cookies = user_logout_handler();
    assert_eq!(cookies.access.expiry, CookieExpiry::Removal);
    assert_eq!(cookies.refresh.expiry, CookieExpiry::Removal);
    let outcome = authorize_at(None, None, &config, NOW);
    assert!(matches!(outcome, GateOutcome::Reject(ApiError::MissingToken)));
    let outcome = authorize_at(Some(&cookies.access.value), None, &config, NOW);
    assert!(matches!(outcome, GateOutcome::Reject(ApiError::InvalidToken)));
}
