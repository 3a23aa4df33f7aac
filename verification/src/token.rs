//! Bearer tokens: decoding a compact signed token and deciding whether its
//! claims are acceptable at a given instant.

use crate::text::opt_text;
use jsonwebtoken::errors::ErrorKind;
use jsonwebtoken::{decode, encode, Algorithm, DecodingKey, EncodingKey, Header, Validation};
use serde_json::Value;
use vstd::prelude::*;
use vstd::utf8::encode_utf8;

verus! {

/// The claims of a verified token.
#[derive(Debug, Clone, PartialEq, Eq)]
pub struct Claims {
    /// Identifier of the user the token was issued to.
    pub sub: String,
    /// Expiry, in UTC seconds since the epoch.
    pub exp: i64,
    /// Display name of the user, when the issuer recorded one.
    pub username: Option<String>,
}

/// Mathematical value of [`Claims`].
pub struct ClaimsView {
    pub sub: Seq<char>,
    pub exp: i64,
    pub username: Option<Seq<char>>,
}

/// The payload of a token whose structure and signature were accepted,
/// before any rule on its claims has been applied.
#[derive(Debug, Clone, PartialEq, Eq)]
pub struct DecodedClaims {
    pub sub: Option<String>,
    pub exp: Option<i64>,
    pub username: Option<String>,
}

/// Mathematical value of [`DecodedClaims`].
pub struct DecodedView {
    pub sub: Option<Seq<char>>,
    pub exp: Option<i64>,
    pub username: Option<Seq<char>>,
}

/// Why a token could not be decoded.
#[derive(Debug, Clone, Copy, PartialEq, Eq, Structural)]
pub enum DecodeFailure {
    /// The signature does not match the message under the given secret.
    Signature,
    /// Anything else: wrong shape, bad encoding, a foreign algorithm.
    Structure,
}

/// Why a token was refused.
#[derive(Debug, Clone, Copy, PartialEq, Eq, Structural)]
pub enum VerificationError {
    Malformed,
    BadSignature,
    Expired,
}

impl View for Claims {
    type V = ClaimsView;

    open spec fn view(&self) -> ClaimsView {
        ClaimsView { sub: self.sub@, exp: self.exp, username: opt_text(self.username) }
    }
}

impl View for DecodedClaims {
    type V = DecodedView;

    open spec fn view(&self) -> DecodedView {
        DecodedView { sub: opt_text(self.sub), exp: self.exp, username: opt_text(self.username) }
    }
}

/// View of what decoding returned.
pub open spec fn decoding_view(d: Result<DecodedClaims, DecodeFailure>) -> Result<
    DecodedView,
    DecodeFailure,
> {
    match d {
        Ok(c) => Ok(c@),
        Err(e) => Err(e),
    }
}

/// View of what verification returned.
pub open spec fn outcome_view(r: Result<Claims, VerificationError>) -> Result<
    ClaimsView,
    VerificationError,
> {
    match r {
        Ok(c) => Ok(c@),
        Err(e) => Err(e),
    }
}

/// The verdict on a decoded token at the instant `now`: a decoding failure
/// is reported as such, a payload without subject or expiry is malformed,
/// and a token whose expiry is not after `now` has expired.
pub open spec fn verification(d: Result<DecodedView, DecodeFailure>, now: i64) -> Result<
    ClaimsView,
    VerificationError,
> {
    match d {
        Err(DecodeFailure::Signature) => Err(VerificationError::BadSignature),
        Err(DecodeFailure::Structure) => Err(VerificationError::Malformed),
        Ok(c) => if c.sub is None || c.exp is None {
            Err(VerificationError::Malformed)
        } else if c.exp->0 <= now {
            Err(VerificationError::Expired)
        } else {
            Ok(ClaimsView { sub: c.sub->0, exp: c.exp->0, username: c.username })
        },
    }
}

/// Applies the claim rules to the result of decoding.
pub fn verify_decoded(decoded: Result<DecodedClaims, DecodeFailure>, now: i64) -> (r: Result<
    Claims,
    VerificationError,
>)
    ensures
        outcome_view(r) == verification(decoding_view(decoded), now),
{
    match decoded {
        Err(DecodeFailure::Signature) => Err(VerificationError::BadSignature),
        Err(DecodeFailure::Structure) => Err(VerificationError::Malformed),
        Ok(c) => match (c.sub, c.exp) {
            (Some(sub), Some(exp)) => if exp <= now {
                Err(VerificationError::Expired)
            } else {
                Ok(Claims { sub, exp, username: c.username })
            },
            _ => Err(VerificationError::Malformed),
        },
    }
}

/// What `jsonwebtoken::decode` yields for a token and a secret when only
/// HS256 is admitted and no claim is validated.
pub uninterp spec fn decoded_token(token: Seq<char>, secret: Seq<u8>) -> Result<
    DecodedView,
    DecodeFailure,
>;

/// Calls `jsonwebtoken::decode` with a symmetric key made of `secret`,
/// HS256 as the only admitted algorithm, and the validation of expiry,
/// audience and required claims switched off, so that the clock is never
/// read. The contract claims that the result depends on the two arguments
/// alone. On success the `sub`, `exp` and `username` members of the payload
/// are handed out as they are typed there (a text, a signed 64-bit integer,
/// a text), each absent when missing or of another type; a signature
/// mismatch is told apart from every other failure.
#[verifier::external_body]
fn decode_token(token: &str, secret: &[u8]) -> (r: Result<DecodedClaims, DecodeFailure>)
    ensures
        decoding_view(r) == decoded_token(token@, secret@),
{
    let mut rules = Validation::new(Algorithm::HS256);
    rules.validate_exp = false;
    rules.validate_aud = false;
    rules.required_spec_claims.clear();
    match decode::<Value>(token, &DecodingKey::from_secret(secret), &rules) {
        Ok(data) => Ok(DecodedClaims {
            sub: data.claims["sub"].as_str().map(String::from),
            exp: data.claims["exp"].as_i64(),
            username: data.claims["username"].as_str().map(String::from),
        }),
        Err(e) => Err(match e.kind() {
            ErrorKind::InvalidSignature => DecodeFailure::Signature,
            _ => DecodeFailure::Structure,
        }),
    }
}

/// Verifies a raw bearer token (without the `Bearer ` prefix) against the
/// shared secret at the instant `now`, in UTC seconds since the epoch.
///
/// The token is decoded under HS256 alone, whatever algorithm its header
/// asserts: its shape and its header are checked first, then its
/// signature, then its payload, and last its expiry. Nothing else (issuer,
/// audience) is looked at, and nothing is read but the three arguments.
pub fn verify(token: &str, secret: &[u8], now: i64) -> (r: Result<Claims, VerificationError>)
    requires
        secret@.len() > 0,
    ensures
        outcome_view(r) == verification(decoded_token(token@, secret@), now),
{
    verify_decoded(decode_token(token, secret), now)
}

/// A token that decodes, names a subject and has an expiry that is not
/// after `now` is expired, whatever else it holds. (A token that does not
/// decode is refused for that reason before its expiry can be read.)
pub proof fn lemma_expired_token(claims: DecodedView, now: i64)
    requires
        claims.sub is Some,
        claims.exp matches Some(exp) && exp <= now,
    ensures
        verification(Ok(claims), now) == Err::<ClaimsView, VerificationError>(
            VerificationError::Expired,
        ),
{
}

/// A token whose signature does not match under the configured secret is
/// refused with `BadSignature`, at any time and whatever it claims.
pub proof fn lemma_bad_signature(now: i64)
    ensures
        verification(Err(DecodeFailure::Signature), now) == Err::<ClaimsView, VerificationError>(
            VerificationError::BadSignature,
        ),
{
}

/// The three errors exclude each other, and a token is accepted exactly
/// when it decodes, names a subject and expires after `now`; the claims
/// handed out are then those of the token.
pub proof fn lemma_verification_cases(d: Result<DecodedView, DecodeFailure>, now: i64)
    ensures
        verification(d, now) is Ok <==> (d matches Ok(c) && c.sub is Some && (c.exp matches Some(
            exp,
        ) && exp > now)),
        verification(d, now) matches Ok(claims) ==> (d matches Ok(c) && claims.sub == c.sub->0
            && claims.exp == c.exp->0 && claims.username == c.username),
        verification(d, now) == Err::<ClaimsView, VerificationError>(
            VerificationError::BadSignature,
        ) <==> d == Err::<DecodedView, DecodeFailure>(DecodeFailure::Signature),
        verification(d, now) == Err::<ClaimsView, VerificationError>(VerificationError::Expired)
            <==> (d matches Ok(c) && c.sub is Some && (c.exp matches Some(exp) && exp <= now)),
{
}

/// A token that is accepted at some instant was accepted at every earlier
/// one, and one that has expired stays expired.
pub proof fn lemma_acceptance_is_monotone(
    d: Result<DecodedView, DecodeFailure>,
    earlier: i64,
    later: i64,
)
    requires
        earlier <= later,
    ensures
        verification(d, later) is Ok ==> verification(d, earlier) == verification(d, later),
        verification(d, earlier) == Err::<ClaimsView, VerificationError>(
            VerificationError::Expired,
        ) ==> verification(d, later) == verification(d, earlier),
{
}

/// How long a token of [`generate_jwt`] lives: a day, in seconds.
pub const JWT_EXPIRATION_SECONDS: i64 = 86400;

/// Why no token could be issued.
#[derive(Debug, Clone, Copy, PartialEq, Eq, Structural)]
pub enum IssueError {
    /// The expiry does not fit the range of timestamps.
    InvalidExpiration,
    /// The token could not be encoded or signed.
    Encoding,
}

/// What `jsonwebtoken::encode` yields under HS256 for a payload with the
/// members `sub`, `username` and `exp`, and a secret.
pub uninterp spec fn encoded_token(
    sub: Seq<char>,
    username: Seq<char>,
    exp: i64,
    secret: Seq<u8>,
) -> Option<Seq<char>>;

/// Calls `jsonwebtoken::encode` with an HS256 header, a payload object
/// with the members `sub`, `username` and `exp`, and a symmetric key made
/// of `secret`. The contract claims that the result depends on the four
/// arguments alone; an error of the encoder is reported as `None`.
#[verifier::external_body]
fn encode_token(sub: &str, username: &str, exp: i64, secret: &[u8]) -> (r: Option<String>)
    ensures
        opt_text(r) == encoded_token(sub@, username@, exp, secret@),
{
    let mut payload = serde_json::Map::new();
    payload.insert("sub".to_owned(), Value::from(sub));
    payload.insert("username".to_owned(), Value::from(username));
    payload.insert("exp".to_owned(), Value::from(exp));
    encode(&Header::new(Algorithm::HS256), &payload, &EncodingKey::from_secret(secret)).ok()
}

/// What issuing a token at `now` for `lifetime` seconds comes to, given
/// what encoding it yields: the token, unless the expiry does not fit the
/// range of timestamps or the encoder failed.
pub open spec fn issued(now: i64, lifetime: i64, encoded: Option<Seq<char>>) -> Result<
    Seq<char>,
    IssueError,
> {
    if now + lifetime > i64::MAX || now + lifetime < i64::MIN {
        Err(IssueError::InvalidExpiration)
    } else {
        match encoded {
            Some(token) => Ok(token),
            None => Err(IssueError::Encoding),
        }
    }
}

/// View of an issued token.
pub open spec fn issue_view(r: Result<String, IssueError>) -> Result<Seq<char>, IssueError> {
    match r {
        Ok(t) => Ok(t@),
        Err(e) => Err(e),
    }
}

/// The expiry of a token issued at `now` for `lifetime` seconds, if it
/// fits the range of timestamps.
pub fn expiry(now: i64, lifetime: i64) -> (exp: Option<i64>)
    ensures
        exp is Some <==> i64::MIN <= now + lifetime <= i64::MAX,
        exp matches Some(e) ==> e == now + lifetime,
{
    now.checked_add(lifetime)
}

/// Turns what the encoder yielded into the result of issuing.
pub fn encoded_or_error(encoded: Option<String>) -> (r: Result<String, IssueError>)
    ensures
        issue_view(r) == (match encoded {
            Some(token) => Ok::<Seq<char>, IssueError>(token@),
            None => Err(IssueError::Encoding),
        }),
{
    match encoded {
        Some(token) => Ok(token),
        None => Err(IssueError::Encoding),
    }
}

/// Issues a token for a subject, signed with `secret` under HS256, that
/// expires `lifetime` seconds after `now`.
pub fn issue_token(sub: &str, username: &str, secret: &str, now: i64, lifetime: i64) -> (r: Result<
    String,
    IssueError,
>)
    ensures
        issue_view(r) == issued(
            now,
            lifetime,
            encoded_token(sub@, username@, (now + lifetime) as i64, encode_utf8(secret@)),
        ),
{
    match expiry(now, lifetime) {
        None => Err(IssueError::InvalidExpiration),
        Some(exp) => encoded_or_error(encode_token(sub, username, exp, secret.as_bytes())),
    }
}

/// Issues the day-long token of a user.
pub fn generate_jwt(sub: &str, username: &str, secret: &str, now: i64) -> (r: Result<
    String,
    IssueError,
>)
    ensures
        issue_view(r) == issued(
            now,
            JWT_EXPIRATION_SECONDS,
            encoded_token(
                sub@,
                username@,
                (now + JWT_EXPIRATION_SECONDS) as i64,
                encode_utf8(secret@),
            ),
        ),
{
    issue_token(sub, username, secret, now, JWT_EXPIRATION_SECONDS)
}

/// Verifies a token against a secret given as text.
pub fn verify_jwt(token: &str, secret: &str, now: i64) -> (r: Result<Claims, VerificationError>)
    requires
        secret@.len() > 0,
    ensures
        outcome_view(r) == verification(decoded_token(token@, encode_utf8(secret@)), now),
{
    verify(token, secret.as_bytes(), now)
}

} // verus!
