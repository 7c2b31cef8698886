//! The token codec: issuing signed claims with an expiry, and decoding them.
//!
//! Signing and parsing are done by the `jsonwebtoken` crate. Whether a token
//! has expired is decided here, against a time that the caller passes in, so
//! that every result is a function of the arguments.

use vstd::prelude::*;

use crate::clock::{clock_time, current_time};
use crate::error::{IssueError, TokenError};
use crate::model::{Claim, ClaimView};

verus! {

/// Lifetime of an access token, in seconds.
pub const ACCESS_TOKEN_LIFETIME: usize = 5;

/// Lifetime of a refresh token, in seconds: 365 days.
pub const REFRESH_TOKEN_LIFETIME: usize = 31_536_000;

/// The error type of `jsonwebtoken`.
#[verifier::external_type_specification]
#[verifier::external_body]
pub struct ExJwtError(jsonwebtoken::errors::Error);

/// The three claims as they were found in a payload: each is absent when the
/// payload does not hold it as a string (`sub`) or as a non-negative integer
/// (`iat`, `exp`).
#[derive(Debug)]
pub struct RawClaims {
    pub sub: Option<String>,
    pub iat: Option<u64>,
    pub exp: Option<u64>,
}

/// The mathematical value of [`RawClaims`].
pub struct RawClaimsView {
    pub sub: Option<Seq<char>>,
    pub iat: Option<u64>,
    pub exp: Option<u64>,
}

impl View for RawClaims {
    type V = RawClaimsView;

    open spec fn view(&self) -> RawClaimsView {
        RawClaimsView {
            sub: match self.sub {
                Some(s) => Some(s@),
                None => None,
            },
            iat: self.iat,
            exp: self.exp,
        }
    }
}

// The token that `jsonwebtoken::encode` returns for the default header, the
// claims `sub`, `iat`, `exp` and an HMAC key made of `secret`.
pub uninterp spec fn jwt_encoding(sub: Seq<char>, iat: nat, exp: nat, secret: Seq<char>) -> Seq<char>;

// The HS256 signature, in URL-safe base64, that `jsonwebtoken` computes over
// `message` with an HMAC key made of `secret`.
pub uninterp spec fn jwt_signature(message: Seq<char>, secret: Seq<char>) -> Seq<char>;

// What `jsonwebtoken::decode` reads from `message`, the header and payload
// segments of a token whose signature it has accepted: nothing where it
// rejects the header or the payload, else the three claims of the payload.
pub uninterp spec fn jwt_content(message: Seq<char>) -> Option<RawClaimsView>;

/// Index of the last `.` of `s`, or -1 where it has none.
pub open spec fn last_dot(s: Seq<char>) -> int
    decreases s.len(),
{
    if s.len() == 0 {
        -1
    } else if s.last() == '.' {
        s.len() - 1
    } else {
        last_dot(s.drop_last())
    }
}

/// What a token's signature covers: everything before its last `.`.
pub open spec fn signing_input(token: Seq<char>) -> Seq<char>
    recommends
        last_dot(token) >= 0,
{
    token.subrange(0, last_dot(token))
}

/// The signature segment of a token: everything after its last `.`.
pub open spec fn signature_part(token: Seq<char>) -> Seq<char>
    recommends
        last_dot(token) >= 0,
{
    token.subrange(last_dot(token) + 1, token.len() as int)
}

/// Whether `message` holds exactly one `.`, as what a token's signature
/// covers must: a header segment, a `.` and a payload segment.
pub open spec fn has_one_dot(message: Seq<char>) -> bool {
    last_dot(message) >= 0 && last_dot(message.subrange(0, last_dot(message))) < 0
}

/// The claims found in a token that is correctly signed under `secret`:
/// one of three segments whose last is the signature of the first two.
/// Nothing for any other token.
pub open spec fn verified_content(token: Seq<char>, secret: Seq<char>) -> Option<RawClaimsView> {
    if last_dot(token) >= 0 && has_one_dot(signing_input(token)) && signature_part(token)
        == jwt_signature(signing_input(token), secret) {
        jwt_content(signing_input(token))
    } else {
        None
    }
}

/// The claims that a payload amounts to: all three must be present and the
/// two times must fit the machine word.
pub open spec fn claims_of(raw: RawClaimsView) -> Option<ClaimView> {
    match (raw.sub, raw.iat, raw.exp) {
        (Some(sub), Some(iat), Some(exp)) => if iat <= usize::MAX && exp <= usize::MAX {
            Some(ClaimView { sub, iat: iat as nat, exp: exp as nat })
        } else {
            None
        },
        _ => None,
    }
}

/// The verdict on a payload at time `now`: a payload without complete claims
/// is malformed; complete claims have expired once `now` reaches `exp`.
pub open spec fn checked_at(raw: RawClaimsView, now: nat) -> Result<ClaimView, TokenError> {
    match claims_of(raw) {
        None => Err(TokenError::Malformed),
        Some(claims) => if claims.exp <= now {
            Err(TokenError::Expired)
        } else {
            Ok(claims)
        },
    }
}

/// The claims of a sound token: one that is correctly signed under `secret`
/// and carries complete claims. Nothing for any other token.
pub open spec fn sound_claims(token: Seq<char>, secret: Seq<char>) -> Option<ClaimView> {
    match verified_content(token, secret) {
        None => None,
        Some(raw) => claims_of(raw),
    }
}

/// The result of decoding `token` under `secret` at time `now`: a token that
/// is not sound is malformed; a sound one has expired once `now` reaches its
/// expiry time, and gives its claims before that.
pub open spec fn decode_result(token: Seq<char>, secret: Seq<char>, now: nat) -> Result<
    ClaimView,
    TokenError,
> {
    match sound_claims(token, secret) {
        None => Err(TokenError::Malformed),
        Some(claims) => if claims.exp <= now {
            Err(TokenError::Expired)
        } else {
            Ok(claims)
        },
    }
}

/// A decoding result with the claims taken by their view.
pub open spec fn claim_result_view(r: Result<Claim, TokenError>) -> Result<ClaimView, TokenError> {
    match r {
        Ok(claims) => Ok(claims@),
        Err(e) => Err(e),
    }
}

/// A lifetime can be granted at `now` when it is positive and the expiry time
/// fits the machine word.
pub open spec fn lifetime_fits(lifetime: nat, now: nat) -> bool {
    lifetime > 0 && now + lifetime <= usize::MAX
}

/// A lifetime that can be granted at every time the clock can show: it is
/// positive, and added to the latest reading it still fits the machine word.
pub open spec fn lifetime_always_fits(lifetime: nat) -> bool {
    lifetime > 0 && i64::MAX + lifetime <= usize::MAX
}

/// The claims of a token issued to `subject` at `now` for `lifetime` seconds.
pub open spec fn issued_claims(subject: Seq<char>, lifetime: nat, now: nat) -> ClaimView {
    ClaimView { sub: subject, iat: now, exp: now + lifetime }
}

/// What holds of the outcome `r` of issuing a token to `subject` at `now`.
///
/// A lifetime that cannot be granted is refused; every other request is
/// answered with a token. The token is the encoding of the issued claims,
/// which expire after they were issued; it decodes to exactly those claims at
/// every time before their expiry, and counts as expired from then on.
pub open spec fn issued_at(
    r: Result<String, IssueError>,
    subject: Seq<char>,
    lifetime: nat,
    secret: Seq<char>,
    now: nat,
) -> bool {
    if !lifetime_fits(lifetime, now) {
        r == Err::<String, IssueError>(IssueError::LifetimeOutOfRange)
    } else {
        &&& r matches Ok(token)
        &&& issued_claims(subject, lifetime, now).well_formed()
        &&& token@ == jwt_encoding(subject, now, now + lifetime, secret)
        &&& forall|at: nat| #[trigger]
            decode_result(token@, secret, at) == if at < now + lifetime {
                Ok::<ClaimView, TokenError>(issued_claims(subject, lifetime, now))
            } else {
                Err::<ClaimView, TokenError>(TokenError::Expired)
            }
    }
}

/// Calls `jsonwebtoken::encode` with the default header (HS256), a payload
/// that holds `sub`, `iat` and `exp` in this order, and an HMAC key made of
/// `secret`.
///
/// Trusted: the call succeeds, since with an HMAC key, the default header
/// and a payload of one string and two integers none of its three failures
/// (key family, serialisation, signing) can occur. The token is the named
/// encoding; it is made of a header segment, a payload segment and the
/// signature of those two, joined by `.`; and the crate's `decode` reads the
/// same three claims from what was signed.
#[verifier::external_body]
fn jwt_encode(claims: &Claim, secret: &str) -> (r: Result<String, jsonwebtoken::errors::Error>)
    ensures
        r is Ok,
        r matches Ok(token) ==> {
            &&& token@ == jwt_encoding(
                claims.sub@,
                claims.iat as nat,
                claims.exp as nat,
                secret@,
            )
            &&& last_dot(token@) >= 0
            &&& has_one_dot(signing_input(token@))
            &&& signature_part(token@) == jwt_signature(signing_input(token@), secret@)
            &&& jwt_content(signing_input(token@)) == Some(
                RawClaimsView {
                    sub: Some(claims.sub@),
                    iat: Some(claims.iat as u64),
                    exp: Some(claims.exp as u64),
                },
            )
        },
{
    let mut payload = serde_json::Map::new();
    payload.insert("sub".to_string(), serde_json::Value::from(claims.sub.as_str()));
    payload.insert("iat".to_string(), serde_json::Value::from(claims.iat));
    payload.insert("exp".to_string(), serde_json::Value::from(claims.exp));
    let key = jsonwebtoken::EncodingKey::from_secret(secret.as_bytes());
    jsonwebtoken::encode(&jsonwebtoken::Header::default(), &payload, &key)
}

/// Calls `jsonwebtoken::decode` with an HMAC key made of `secret` and the
/// default validation (HS256, `exp` required) with the crate's own expiry
/// check switched off, and picks `sub`, `iat` and `exp` out of the payload.
///
/// Trusted: the call succeeds exactly when the token has a `.`, what
/// precedes its last `.` holds exactly one `.` more (the crate splits there
/// and rejects a header segment with a `.` in it), what follows its last `.`
/// is the signature of what precedes it, and the crate accepts header and
/// payload; the claims that come back are those it read there.
#[verifier::external_body]
fn jwt_decode(token: &str, secret: &str) -> (r: Result<RawClaims, jsonwebtoken::errors::Error>)
    ensures
        r is Ok <==> {
            &&& last_dot(token@) >= 0
            &&& has_one_dot(signing_input(token@))
            &&& signature_part(token@) == jwt_signature(signing_input(token@), secret@)
            &&& jwt_content(signing_input(token@)) is Some
        },
        r matches Ok(raw) ==> jwt_content(signing_input(token@)) == Some(raw@),
{
    let mut validation = jsonwebtoken::Validation::default();
    validation.validate_exp = false;
    let key = jsonwebtoken::DecodingKey::from_secret(secret.as_bytes());
    let data = jsonwebtoken::decode::<serde_json::Value>(token, &key, &validation)?;
    Ok(
        RawClaims {
            sub: data.claims.get("sub").and_then(serde_json::Value::as_str).map(str::to_string),
            iat: data.claims.get("iat").and_then(serde_json::Value::as_u64),
            exp: data.claims.get("exp").and_then(serde_json::Value::as_u64),
        },
    )
}

/// Judges the claims found in a correctly signed token at time `now`.
pub fn check_claims(raw: RawClaims, now: usize) -> (r: Result<Claim, TokenError>)
    ensures
        claim_result_view(r) == checked_at(raw@, now as nat),
{
    match (raw.sub, raw.iat, raw.exp) {
        (Some(sub), Some(iat), Some(exp)) => {
            if iat > usize::MAX as u64 || exp > usize::MAX as u64 {
                Err(TokenError::Malformed)
            } else if exp as usize <= now {
                Err(TokenError::Expired)
            } else {
                Ok(Claim { sub, iat: iat as usize, exp: exp as usize })
            }
        },
        _ => Err(TokenError::Malformed),
    }
}

/// Decodes `token` under `secret` as of time `now`.
///
/// Fails with `Malformed` when the token cannot be parsed, its signature does
/// not verify or its claims are incomplete, and with `Expired` when it is
/// sound and `now` has reached its expiry time.
pub fn decode_token_at(token: &str, secret: &str, now: usize) -> (r: Result<Claim, TokenError>)
    ensures
        claim_result_view(r) == decode_result(token@, secret@, now as nat),
{
    match jwt_decode(token, secret) {
        Ok(raw) => check_claims(raw, now),
        Err(_) => Err(TokenError::Malformed),
    }
}

/// Decodes `token` under `secret` as of the current time.
///
/// The result is that of [`decode_token_at`] at the time the clock showed.
/// Whatever it showed, a token that is not correctly signed or lacks a claim
/// is `Malformed`, and claims that come back are those of the token.
pub fn decode_token(token: &str, secret: &str) -> (r: Result<Claim, TokenError>)
    ensures
        exists|now: nat|
            clock_time(now) && claim_result_view(r) == #[trigger] decode_result(
                token@,
                secret@,
                now,
            ),
        r == Err::<Claim, TokenError>(TokenError::Malformed) <==> sound_claims(token@, secret@)
            is None,
        r matches Ok(claims) ==> sound_claims(token@, secret@) == Some(claims@),
{
    let now = current_time();
    let r = decode_token_at(token, secret, now);
    assert(claim_result_view(r) == decode_result(token@, secret@, now as nat));
    r
}

/// Turns the outcome of the signing backend into the outcome of issuing.
pub fn encoded_token(encoded: Result<String, jsonwebtoken::errors::Error>) -> (r: Result<
    String,
    IssueError,
>)
    ensures
        match encoded {
            Ok(token) => r == Ok::<String, IssueError>(token),
            Err(_) => r == Err::<String, IssueError>(IssueError::Encoding),
        },
{
    match encoded {
        Ok(token) => Ok(token),
        Err(_) => Err(IssueError::Encoding),
    }
}

/// Issues a token for `subject` at time `now` that expires `lifetime` seconds
/// later, signed with `secret`.
///
/// Succeeds exactly when the lifetime can be granted. Decoding the token
/// under the same secret gives back the subject and the two times, at every
/// moment before the expiry time.
pub fn issue_token_at(subject: &str, lifetime: usize, secret: &str, now: usize) -> (r: Result<
    String,
    IssueError,
>)
    ensures
        issued_at(r, subject@, lifetime as nat, secret@, now as nat),
        r is Ok <==> lifetime_fits(lifetime as nat, now as nat),
{
    if lifetime == 0 || lifetime > usize::MAX - now {
        return Err(IssueError::LifetimeOutOfRange);
    }
    let claims = Claim { sub: subject.to_string(), iat: now, exp: now + lifetime };
    let encoded = jwt_encode(&claims, secret);
    let r = encoded_token(encoded);
    proof {
        if r is Ok {
            let token = r->Ok_0;
            assert(verified_content(token@, secret@) == Some(
                RawClaimsView {
                    sub: Some(subject@),
                    iat: Some(now as u64),
                    exp: Some((now + lifetime) as u64),
                },
            ));
            assert forall|at: nat| #[trigger]
                decode_result(token@, secret@, at) == if at < now + lifetime {
                    Ok::<ClaimView, TokenError>(
                        issued_claims(subject@, lifetime as nat, now as nat),
                    )
                } else {
                    Err::<ClaimView, TokenError>(TokenError::Expired)
                } by {}
        }
    }
    r
}

/// Issues a token for `subject` that expires `lifetime` seconds from now.
///
/// The result is that of [`issue_token_at`] at the time the clock showed.
/// Whatever it showed, a lifetime that can always be granted gets a token, a
/// lifetime of zero gets none, and the only failure is the refused lifetime.
pub fn issue_token(subject: &str, lifetime: usize, secret: &str) -> (r: Result<String, IssueError>)
    ensures
        exists|now: nat|
            clock_time(now) && #[trigger] issued_at(r, subject@, lifetime as nat, secret@, now),
        lifetime_always_fits(lifetime as nat) ==> r is Ok,
        lifetime == 0 ==> r is Err,
        r is Err ==> r == Err::<String, IssueError>(IssueError::LifetimeOutOfRange),
{
    let now = current_time();
    let r = issue_token_at(subject, lifetime, secret, now);
    assert(issued_at(r, subject@, lifetime as nat, secret@, now as nat));
    r
}

/// Issues an access token for `user_id`: one that lives
/// [`ACCESS_TOKEN_LIFETIME`] seconds from now.
///
/// A token is owed wherever that lifetime can always be granted, which is on
/// every machine whose word is wider than the clock's reading.
pub fn generate_access_token(user_id: &str, secret: &str) -> (r: Result<String, IssueError>)
    ensures
        exists|now: nat|
            clock_time(now) && #[trigger] issued_at(
                r,
                user_id@,
                ACCESS_TOKEN_LIFETIME as nat,
                secret@,
                now,
            ),
        lifetime_always_fits(ACCESS_TOKEN_LIFETIME as nat) ==> r is Ok,
        r is Err ==> r == Err::<String, IssueError>(IssueError::LifetimeOutOfRange),
{
    issue_token(user_id, ACCESS_TOKEN_LIFETIME, secret)
}

/// Issues a refresh token for `user_id`: one that lives
/// [`REFRESH_TOKEN_LIFETIME`] seconds from now.
///
/// A token is owed wherever that lifetime can always be granted, which is on
/// every machine whose word is wider than the clock's reading.
pub fn generate_refresh_token(user_id: &str, secret: &str) -> (r: Result<String, IssueError>)
    ensures
        exists|now: nat|
            clock_time(now) && #[trigger] issued_at(
                r,
                user_id@,
                REFRESH_TOKEN_LIFETIME as nat,
                secret@,
                now,
            ),
        lifetime_always_fits(REFRESH_TOKEN_LIFETIME as nat) ==> r is Ok,
        r is Err ==> r == Err::<String, IssueError>(IssueError::LifetimeOutOfRange),
{
    issue_token(user_id, REFRESH_TOKEN_LIFETIME, secret)
}

/// Expiry boundary: a sound token decodes to its claims at every time before
/// its expiry time, the second just before it included, and is `Expired` at
/// that time and at every later one.
pub proof fn lemma_expiry_boundary(token: Seq<char>, secret: Seq<char>, now: nat)
    requires
        sound_claims(token, secret) is Some,
    ensures
        ({
            let claims = sound_claims(token, secret)->Some_0;
            &&& now >= claims.exp ==> decode_result(token, secret, now) == Err::<
                ClaimView,
                TokenError,
            >(TokenError::Expired)
            &&& now < claims.exp ==> decode_result(token, secret, now) == Ok::<
                ClaimView,
                TokenError,
            >(claims)
            &&& claims.exp > 0 ==> decode_result(token, secret, (claims.exp - 1) as nat) == Ok::<
                ClaimView,
                TokenError,
            >(claims)
        }),
{
}

/// The last `.` of `s` is a `.`, no `.` follows it, and its index is -1 or
/// lies inside `s`.
proof fn lemma_last_dot_is_last(s: Seq<char>)
    ensures
        -1 <= last_dot(s) < s.len(),
        last_dot(s) >= 0 ==> s[last_dot(s)] == '.',
        forall|j: int| last_dot(s) < j < s.len() ==> s[j] != '.',
    decreases s.len(),
{
    if s.len() > 0 && s.last() != '.' {
        let front = s.drop_last();
        lemma_last_dot_is_last(front);
        assert forall|j: int| last_dot(s) < j < s.len() implies s[j] != '.' by {
            if j < front.len() {
                assert(front[j] == s[j]);
            }
        }
    }
}

/// An index that holds a `.` which no `.` follows is the last `.` of `s`;
/// so is -1 where `s` holds none.
proof fn lemma_last_dot_unique(s: Seq<char>, k: int)
    requires
        -1 <= k < s.len(),
        k >= 0 ==> s[k] == '.',
        forall|j: int| k < j < s.len() ==> s[j] != '.',
    ensures
        last_dot(s) == k,
    decreases s.len(),
{
    if s.len() > 0 && s.last() != '.' {
        let front = s.drop_last();
        assert forall|j: int| k < j < front.len() implies front[j] != '.' by {
            assert(front[j] == s[j]);
        }
        if k >= 0 {
            assert(front[k] == s[k]);
        }
        lemma_last_dot_unique(front, k);
    }
}

/// Signature tamper: take a token that is correctly signed under `secret`,
/// expired or not, and replace one character of its signature segment by any
/// other. The result is `Malformed` at every time, never `Expired`.
///
/// A replacement that is no `.` leaves what was signed as it is and changes
/// the signature, which then no longer matches. A `.` cuts the signature
/// segment in two, so that what precedes the last `.` holds two of them.
pub proof fn lemma_signature_tamper(
    token: Seq<char>,
    secret: Seq<char>,
    i: int,
    c: char,
    now: nat,
)
    requires
        verified_content(token, secret) is Some,
        last_dot(token) < i < token.len(),
        c != token[i],
    ensures
        decode_result(token.update(i, c), secret, now) == Err::<ClaimView, TokenError>(
            TokenError::Malformed,
        ),
{
    let forged = token.update(i, c);
    let d = last_dot(token);
    lemma_last_dot_is_last(token);
    if c != '.' {
        lemma_last_dot_unique(forged, d);
        assert(signing_input(forged) == signing_input(token));
        assert(signature_part(forged)[i - d - 1] == c);
        assert(signature_part(token)[i - d - 1] == token[i]);
    } else {
        lemma_last_dot_unique(forged, i);
        let covered = signing_input(forged);
        assert(covered == token.subrange(0, i));
        lemma_last_dot_unique(covered, d);
        assert(covered.subrange(0, d) == signing_input(token));
        assert(!has_one_dot(covered));
    }
}

/// A token that is not correctly signed under `secret` is `Malformed` at
/// every time: `Expired` is reported only of a token whose signature verifies.
pub proof fn lemma_expired_only_if_signed(token: Seq<char>, secret: Seq<char>, now: nat)
    ensures
        decode_result(token, secret, now) == Err::<ClaimView, TokenError>(TokenError::Expired)
            ==> last_dot(token) >= 0 && has_one_dot(signing_input(token)) && signature_part(token)
            == jwt_signature(signing_input(token), secret),
{
}

} // verus!
