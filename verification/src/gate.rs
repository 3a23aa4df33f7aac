//! The authentication gate: the pipeline stage that either rejects a
//! request or lets it through with the identity its token carries.

use crate::forms::ApiResponse;
use crate::text::opt_str;
use crate::token::{decoded_token, outcome_view, verification, verify, Claims, ClaimsView,
    VerificationError};
use vstd::prelude::*;
use vstd::utf8::encode_utf8;

verus! {

/// Process-wide settings, fixed at startup.
#[derive(Debug, Clone, PartialEq, Eq)]
pub struct AppConfig {
    /// The secret that tokens are signed with.
    pub jwt_secret: String,
    /// The port the server listens on.
    pub port: String,
}

/// The port of a deployment that names none.
pub const DEFAULT_PORT: &'static str = "8080";

impl AppConfig {
    /// The settings of a deployment: the secret as it is given, and the
    /// port that is named or else [`DEFAULT_PORT`].
    pub fn new(jwt_secret: String, port: Option<String>) -> (config: AppConfig)
        ensures
            config.jwt_secret == jwt_secret,
            config.port@ == (match port {
                Some(p) => p@,
                None => DEFAULT_PORT@,
            }),
    {
        let port = match port {
            Some(p) => p,
            None => DEFAULT_PORT.to_owned(),
        };
        AppConfig { jwt_secret, port }
    }
}

/// What every stage may read of the process: constructed once, never
/// written afterwards.
#[derive(Debug, Clone, PartialEq, Eq)]
pub struct AppState {
    pub config: AppConfig,
}

/// The identity attached to a request that passed the auth gate. It lives
/// as long as the request does.
#[derive(Debug, Clone, PartialEq, Eq)]
pub struct AuthContext {
    /// The user identifier the token was issued to.
    pub subject: String,
}

/// Why the auth gate ended a request.
#[derive(Debug, Clone, Copy, PartialEq, Eq, Structural)]
pub enum Rejection {
    /// No `Authorization` header, or one that does not start with `Bearer `.
    MissingOrMalformedHeader,
    TokenMalformed,
    TokenBadSignature,
    TokenExpired,
    /// The stage was given no usable configuration: a fault of the
    /// deployment, never of the client.
    MissingPipelineContext,
}

impl Rejection {
    /// The HTTP status a rejection is answered with: 500 for a missing
    /// configuration, 401 for everything a client can cause.
    pub open spec fn spec_status_code(self) -> u16 {
        match self {
            Rejection::MissingPipelineContext => 500,
            _ => 401,
        }
    }

    /// The message a client is shown: one text for everything a client
    /// can cause, so that nothing of the cause leaks.
    pub open spec fn spec_client_message(self) -> Seq<char> {
        if self == Rejection::MissingPipelineContext {
            "Failed to get app state"@
        } else {
            "invalid or expired token"@
        }
    }

    /// What the log is told of a rejection; never shown to a client.
    pub open spec fn spec_detail(self) -> Seq<char> {
        match self {
            Rejection::MissingOrMalformedHeader => "missing or malformed Authorization header"@,
            Rejection::TokenMalformed => "malformed token"@,
            Rejection::TokenBadSignature => "bad token signature"@,
            Rejection::TokenExpired => "expired token"@,
            Rejection::MissingPipelineContext => "missing pipeline context"@,
        }
    }

    /// What the log is told of a rejection; never shown to a client.
    pub fn detail(self) -> (text: &'static str)
        ensures
            text@ == self.spec_detail(),
    {
        match self {
            Rejection::MissingOrMalformedHeader => "missing or malformed Authorization header",
            Rejection::TokenMalformed => "malformed token",
            Rejection::TokenBadSignature => "bad token signature",
            Rejection::TokenExpired => "expired token",
            Rejection::MissingPipelineContext => "missing pipeline context",
        }
    }

    /// The HTTP status a rejection is answered with.
    #[verifier::when_used_as_spec(spec_status_code)]
    pub fn status_code(self) -> (code: u16)
        ensures
            code == self.spec_status_code(),
    {
        match self {
            Rejection::MissingPipelineContext => 500,
            _ => 401,
        }
    }

    /// The envelope a rejection is answered with: a refusal without data
    /// that carries the message for clients.
    pub fn response(self) -> (envelope: ApiResponse<()>)
        ensures
            !envelope.success,
            envelope.data is None,
            envelope.message matches Some(m) && m@ == self.spec_client_message(),
    {
        ApiResponse::failure(self.client_message())
    }

    /// The message a client is shown.
    pub fn client_message(self) -> (text: &'static str)
        ensures
            text@ == self.spec_client_message(),
    {
        match self {
            Rejection::MissingPipelineContext => "Failed to get app state",
            _ => "invalid or expired token",
        }
    }
}

/// The literal prefix of a bearer credential.
pub open spec fn bearer_prefix() -> Seq<char> {
    seq!['B', 'e', 'a', 'r', 'e', 'r', ' ']
}

/// The token inside an `Authorization` header value: what follows the
/// prefix `Bearer `, if the value starts with it.
pub open spec fn bearer_token(header: Option<Seq<char>>) -> Option<Seq<char>> {
    match header {
        Some(h) => if h.len() >= 7 && h.subrange(0, 7) == bearer_prefix() {
            Some(h.subrange(7, h.len() as int))
        } else {
            None
        },
        None => None,
    }
}

/// The rejection that stands for a verification error.
pub open spec fn rejection_of(e: VerificationError) -> Rejection {
    match e {
        VerificationError::Malformed => Rejection::TokenMalformed,
        VerificationError::BadSignature => Rejection::TokenBadSignature,
        VerificationError::Expired => Rejection::TokenExpired,
    }
}

/// The auth gate's decision once the token has been verified.
pub open spec fn decision(verified: Result<ClaimsView, VerificationError>) -> Result<
    Seq<char>,
    Rejection,
> {
    match verified {
        Ok(c) => Ok(c.sub),
        Err(e) => Err(rejection_of(e)),
    }
}

/// The auth gate's decision for a request, from the secret it was
/// configured with (if any), the `Authorization` header value (if any) and
/// the time.
pub open spec fn gate_decision(
    secret: Option<Seq<char>>,
    header: Option<Seq<char>>,
    now: i64,
) -> Result<Seq<char>, Rejection> {
    if secret is None || secret->0.len() == 0 {
        Err(Rejection::MissingPipelineContext)
    } else if bearer_token(header) is None {
        Err(Rejection::MissingOrMalformedHeader)
    } else {
        decision(verification(decoded_token(bearer_token(header)->0, encode_utf8(secret->0)), now))
    }
}

/// View of a decision: the subject that was let through, or the rejection.
pub open spec fn decision_view(d: Result<AuthContext, Rejection>) -> Result<Seq<char>, Rejection> {
    match d {
        Ok(ctx) => Ok(ctx.subject@),
        Err(e) => Err(e),
    }
}

/// The secret a stage finds in the state it is given, if it is given one.
pub open spec fn secret_view(state: Option<&AppState>) -> Option<Seq<char>> {
    match state {
        Some(s) => Some(s.config.jwt_secret@),
        None => None,
    }
}

/// Takes the token out of an `Authorization` header value.
pub fn strip_bearer<'a>(header: &'a str) -> (token: Option<&'a str>)
    ensures
        opt_str(token) == bearer_token(Some(header@)),
{
    let n: usize = header.unicode_len();
    if n < 7 {
        return None;
    }
    if header.get_char(0) == 'B' && header.get_char(1) == 'e' && header.get_char(2) == 'a'
        && header.get_char(3) == 'r' && header.get_char(4) == 'e' && header.get_char(5) == 'r'
        && header.get_char(6) == ' ' {
        assert(header@.subrange(0, 7) =~= bearer_prefix());
        Some(header.substring_char(7, n))
    } else {
        assert(header@.subrange(0, 7) != bearer_prefix()) by {
            let p = header@.subrange(0, 7);
            if p == bearer_prefix() {
                assert(p[0] == 'B' && p[1] == 'e' && p[2] == 'a' && p[3] == 'r' && p[4] == 'e'
                    && p[5] == 'r' && p[6] == ' ');
            }
        }
        None
    }
}

/// Turns the result of verification into the auth gate's decision: the
/// subject of accepted claims becomes the request's identity, and each
/// verification error its rejection.
pub fn decide(verified: Result<Claims, VerificationError>) -> (d: Result<AuthContext, Rejection>)
    ensures
        decision_view(d) == decision(outcome_view(verified)),
{
    match verified {
        Ok(claims) => Ok(AuthContext { subject: claims.sub }),
        Err(VerificationError::Malformed) => Err(Rejection::TokenMalformed),
        Err(VerificationError::BadSignature) => Err(Rejection::TokenBadSignature),
        Err(VerificationError::Expired) => Err(Rejection::TokenExpired),
    }
}

/// Builds the auth gate for a route group.
#[derive(Debug, Clone, Copy, PartialEq, Eq, Structural)]
pub struct AuthMiddleware;

/// The auth gate itself. It knows nothing of routes: whoever composes the
/// pipeline decides which requests reach it.
#[derive(Debug, Clone, Copy, PartialEq, Eq, Structural)]
pub struct AuthMiddlewareService;

impl AuthMiddleware {
    /// The auth gate this factory stands for.
    pub fn new_transform(&self) -> (service: AuthMiddlewareService)
        ensures
            service == AuthMiddlewareService,
    {
        AuthMiddlewareService
    }
}

impl AuthMiddlewareService {
    /// Decides on one request.
    ///
    /// Without a state, or with an empty secret in it, the request ends
    /// with `MissingPipelineContext`. Without a header that starts with
    /// `Bearer `, it ends with `MissingOrMalformedHeader`. Otherwise the
    /// rest of the header is verified against the secret at `now`, and the
    /// request is let through with the token's subject or ends with the
    /// rejection that stands for the verification error. Nothing is
    /// written anywhere.
    pub fn call(&self, state: Option<&AppState>, authorization: Option<&str>, now: i64) -> (d:
        Result<AuthContext, Rejection>)
        ensures
            decision_view(d) == gate_decision(secret_view(state), opt_str(authorization), now),
    {
        let secret: &str = match state {
            Some(s) => s.config.jwt_secret.as_str(),
            None => { return Err(Rejection::MissingPipelineContext); },
        };
        if secret.is_empty() {
            return Err(Rejection::MissingPipelineContext);
        }
        let token: &str = match authorization {
            Some(h) => match strip_bearer(h) {
                Some(t) => t,
                None => { return Err(Rejection::MissingOrMalformedHeader); },
            },
            None => { return Err(Rejection::MissingOrMalformedHeader); },
        };
        decide(verify(token, secret.as_bytes(), now))
    }
}

} // verus!
