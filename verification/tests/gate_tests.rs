use request_pipeline::gate::{
    decide, strip_bearer, AppConfig, AppState, AuthContext, AuthMiddleware, Rejection,
};
use request_pipeline::token::{issue_token, Claims, VerificationError};

const NOW: i64 = 1_700_000_000;

fn state(secret: &str) -> AppState {
    AppState { config: AppConfig { jwt_secret: secret.to_string(), port: "8080".to_string() } }
}

fn bearer(sub: &str, exp: i64, secret: &str) -> String {
    format!("Bearer {}", issue_token(sub, "name", secret, exp - 10, 10).unwrap())
}

#[test]
fn missing_header_is_rejected_with_401() {
    let gate = AuthMiddleware.new_transform();
    let st = state("s3cr3t");
    let d = gate.call(Some(&st), None, NOW);
    assert_eq!(d, Err(Rejection::MissingOrMalformedHeader));
    assert_eq!(d.unwrap_err().status_code(), 401);
}

#[test]
fn header_without_bearer_prefix_is_rejected() {
    let gate = AuthMiddleware.new_transform();
    let st = state("s3cr3t");
    let token = issue_token("u1", "n", "s3cr3t", NOW, 60).unwrap();
    for header in [
        "".to_string(),
        "Bearer".to_string(),
        "bearer x".to_string(),
        "Basic abc".to_string(),
        token.clone(),
        format!("Bearer{}", token),
        format!(" Bearer {}", token),
        format!("BEARER {}", token),
    ] {
        assert_eq!(
            gate.call(Some(&st), Some(&header), NOW),
            Err(Rejection::MissingOrMalformedHeader),
            "{:?}",
            header
        );
    }
}

#[test]
fn valid_token_attaches_subject() {
    let gate = AuthMiddleware.new_transform();
    let st = state("s3cr3t");
    let header = bearer("u1", NOW + 100, "s3cr3t");
    assert_eq!(
        gate.call(Some(&st), Some(&header), NOW),
        Ok(AuthContext { subject: "u1".to_string() })
    );
}

#[test]
fn each_verification_error_has_its_rejection() {
    let gate = AuthMiddleware.new_transform();
    let st = state("s3cr3t");
    let expired = bearer("u1", NOW, "s3cr3t");
    assert_eq!(gate.call(Some(&st), Some(&expired), NOW), Err(Rejection::TokenExpired));
    let forged = bearer("u1", NOW + 100, "wrong");
    assert_eq!(gate.call(Some(&st), Some(&forged), NOW), Err(Rejection::TokenBadSignature));
    assert_eq!(
        gate.call(Some(&st), Some("Bearer not.a.token"), NOW),
        Err(Rejection::TokenMalformed)
    );
    assert_eq!(gate.call(Some(&st), Some("Bearer "), NOW), Err(Rejection::TokenMalformed));
}

#[test]
fn prefix_is_stripped_once() {
    let gate = AuthMiddleware.new_transform();
    let st = state("s3cr3t");
    let token = issue_token("u1", "n", "s3cr3t", NOW, 60).unwrap();
    let doubled = format!("Bearer Bearer {}", token);
    assert_eq!(gate.call(Some(&st), Some(&doubled), NOW), Err(Rejection::TokenMalformed));
    assert_eq!(strip_bearer(&doubled), Some(format!("Bearer {}", token).as_str()));
}

#[test]
fn strip_bearer_cases() {
    assert_eq!(strip_bearer("Bearer abc"), Some("abc"));
    assert_eq!(strip_bearer("Bearer "), Some(""));
    assert_eq!(strip_bearer("Bearer  abc"), Some(" abc"));
    assert_eq!(strip_bearer("Bearer"), None);
    assert_eq!(strip_bearer("Bearer\tabc"), None);
    assert_eq!(strip_bearer(""), None);
    assert_eq!(strip_bearer("Bearér abc"), None);
    assert_eq!(strip_bearer("Bearer ünïcödé"), Some("ünïcödé"));
}

#[test]
fn missing_state_or_empty_secret_is_a_server_fault() {
    let gate = AuthMiddleware.new_transform();
    let header = bearer("u1", NOW + 100, "s3cr3t");
    let d = gate.call(None, Some(&header), NOW);
    assert_eq!(d, Err(Rejection::MissingPipelineContext));
    assert_eq!(Rejection::MissingPipelineContext.status_code(), 500);
    let empty = state("");
    assert_eq!(gate.call(Some(&empty), Some(&header), NOW), Err(Rejection::MissingPipelineContext));
    assert_eq!(gate.call(Some(&empty), None, NOW), Err(Rejection::MissingPipelineContext));
}

#[test]
fn client_rejections_share_one_status_and_message() {
    for r in [
        Rejection::MissingOrMalformedHeader,
        Rejection::TokenMalformed,
        Rejection::TokenBadSignature,
        Rejection::TokenExpired,
    ] {
        assert_eq!(r.status_code(), 401);
        assert_eq!(r.client_message(), "invalid or expired token");
    }
    assert_eq!(Rejection::MissingPipelineContext.client_message(), "Failed to get app state");
}

#[test]
fn decide_maps_claims_and_errors() {
    let claims = Claims { sub: "u9".into(), exp: 5, username: None };
    assert_eq!(decide(Ok(claims)), Ok(AuthContext { subject: "u9".into() }));
    assert_eq!(decide(Err(VerificationError::Malformed)), Err(Rejection::TokenMalformed));
    assert_eq!(decide(Err(VerificationError::BadSignature)), Err(Rejection::TokenBadSignature));
    assert_eq!(decide(Err(VerificationError::Expired)), Err(Rejection::TokenExpired));
}

#[test]
fn secret_is_taken_as_utf8_bytes() {
    let gate = AuthMiddleware.new_transform();
    let st = state("sécret-ключ");
    let header = bearer("u1", NOW + 100, "sécret-ключ");
    assert_eq!(
        gate.call(Some(&st), Some(&header), NOW),
        Ok(AuthContext { subject: "u1".to_string() })
    );
}

#[test]
fn log_details_tell_rejections_apart() {
    let all = [
        Rejection::MissingOrMalformedHeader,
        Rejection::TokenMalformed,
        Rejection::TokenBadSignature,
        Rejection::TokenExpired,
        Rejection::MissingPipelineContext,
    ];
    for (i, a) in all.iter().enumerate() {
        for (j, b) in all.iter().enumerate() {
            assert_eq!(a.detail() == b.detail(), i == j);
        }
        assert_ne!(a.detail(), a.client_message());
    }
    assert_eq!(Rejection::TokenExpired.detail(), "expired token");
}
