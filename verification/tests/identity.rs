use blog::clock::seconds_since_epoch;
use blog::error::{ApiError, InternalFault, Status, TokenError};
use blog::identity::parse_uuid;

#[test]
fn parse_uuid_reads_the_value() {
    assert_eq!(
        parse_uuid("a1a2a3a4-b1b2-c1c2-d1d2-d3d4d5d6d7d8"),
        Ok(0xa1a2a3a4b1b2c1c2d1d2d3d4d5d6d7d8u128)
    );
    assert_eq!(
        parse_uuid("A1A2A3A4B1B2C1C2D1D2D3D4D5D6D7D8"),
        Ok(0xa1a2a3a4b1b2c1c2d1d2d3d4d5d6d7d8u128)
    );
    assert_eq!(parse_uuid("00000000-0000-0000-0000-000000000000"), Ok(0));
}

#[test]
fn parse_uuid_rejects_other_text() {
    let fault = Err(ApiError::Internal(InternalFault::UuidParse));
    assert_eq!(parse_uuid(""), fault);
    assert_eq!(parse_uuid("user-1"), fault);
    assert_eq!(parse_uuid("a1a2a3a4-b1b2-c1c2-d1d2-d3d4d5d6d7d"), fault);
    assert_eq!(parse_uuid("g1a2a3a4-b1b2-c1c2-d1d2-d3d4d5d6d7d8"), fault);
    assert_eq!(ApiError::Internal(InternalFault::UuidParse).status(), Status::InternalServerError);
}

#[test]
fn parse_uuid_agrees_with_the_uuid_crate() {
    let id = uuid::Uuid::new_v4();
    assert_eq!(parse_uuid(&id.to_string()), Ok(id.as_u128()));
}

#[test]
fn clock_readings_are_clamped() {
    assert_eq!(seconds_since_epoch(0), 0);
    assert_eq!(seconds_since_epoch(-1), 0);
    assert_eq!(seconds_since_epoch(i64::MIN), 0);
    assert_eq!(seconds_since_epoch(1_700_000_000), 1_700_000_000);
    assert_eq!(seconds_since_epoch(1), 1);
}

#[test]
fn every_status_has_its_code() {
    assert_eq!(Status::Success.code(), 200);
    assert_eq!(Status::Created.code(), 201);
    assert_eq!(Status::Unauthorized.code(), 401);
    assert_eq!(Status::NotFound.code(), 404);
    assert_eq!(Status::Conflict.code(), 409);
    assert_eq!(Status::InternalServerError.code(), 500);
}

#[test]
fn every_failure_has_its_status() {
    assert_eq!(ApiError::MissingToken.status(), Status::Unauthorized);
    assert_eq!(ApiError::MissingRefreshToken.status(), Status::Unauthorized);
    assert_eq!(ApiError::InvalidRefreshToken(TokenError::Expired).status(), Status::Unauthorized);
    assert_eq!(ApiError::InvalidRefreshToken(TokenError::Malformed).status(), Status::Unauthorized);
    assert_eq!(ApiError::InvalidToken.status(), Status::Unauthorized);
    assert_eq!(ApiError::InvalidCredentials.status(), Status::Unauthorized);
    assert_eq!(ApiError::UserNotFound.status(), Status::NotFound);
    assert_eq!(ApiError::NoClaimsFound.status(), Status::NotFound);
    assert_eq!(ApiError::PostNotFound.status(), Status::NotFound);
    assert_eq!(ApiError::EmailTaken.status(), Status::Conflict);
    assert_eq!(ApiError::PostTitleTaken.status(), Status::Conflict);
    for fault in [
        InternalFault::TokenIssue,
        InternalFault::PasswordHashing,
        InternalFault::UuidParse,
        InternalFault::Database,
    ] {
        assert_eq!(ApiError::Internal(fault).status(), Status::InternalServerError);
    }
}

#[test]
fn every_failure_has_its_message() {
    assert_eq!(ApiError::MissingToken.message(), "Missing access token");
    assert_eq!(ApiError::MissingRefreshToken.message(), "Missing refresh token");
    assert_eq!(
        ApiError::InvalidRefreshToken(TokenError::Expired).message(),
        "Expired refresh token"
    );
    assert_eq!(
        ApiError::InvalidRefreshToken(TokenError::Malformed).message(),
        "Invalid refresh token"
    );
    assert_eq!(ApiError::InvalidToken.message(), "Invalid token. Please try again!");
    assert_eq!(ApiError::InvalidCredentials.message(), "Invalid credentials. Please try again!");
    assert_eq!(
        ApiError::UserNotFound.message(),
        "User with provided email does not exist. Please try again!"
    );
    assert_eq!(ApiError::NoClaimsFound.message(), "No claims found in the request data");
    assert_eq!(ApiError::PostNotFound.message(), "Post with given id not found!");
    assert_eq!(ApiError::EmailTaken.message(), "Email already exists. Please try again!");
    assert_eq!(ApiError::PostTitleTaken.message(), "Post with given title already exists!");
    assert_eq!(
        ApiError::Internal(InternalFault::TokenIssue).message(),
        "Error generating access token!"
    );
    assert_eq!(
        ApiError::Internal(InternalFault::PasswordHashing).message(),
        "Failed to hash password"
    );
    assert_eq!(
        ApiError::Internal(InternalFault::UuidParse).message(),
        "Error parsing uuid from string"
    );
    assert_eq!(ApiError::Internal(InternalFault::Database).message(), "Database error");
}
