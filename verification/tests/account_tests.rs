use request_pipeline::accounts::{
    complete_registration, grant_login, grant_registration, judge_password, login_service,
    plan_registration, register_service, AuthServiceError, CreateUserData, User, SESSION_SECONDS,
};
use request_pipeline::forms::{
    ApiResponse, CreateArtistViewObject, LoginViewObject, RegisterViewObject, RegistrationErrors,
};
use request_pipeline::paging::{artist_page, listing_page, page_window, Window};
use request_pipeline::token::{verify_jwt, IssueError};
use request_pipeline::validation::{accept_match, is_valid_email, is_valid_password};

const NOW: i64 = 1_700_000_000;

fn user(password: &str) -> User {
    User {
        id: "0b0e6a0c-5d0f-4c1c-9b1a-2f3d4e5f6a7b".to_string(),
        username: "alice".to_string(),
        password_hash: bcrypt::hash(password, 4).unwrap(),
        nickname: Some("Al".to_string()),
        email: None,
        role: "user".to_string(),
    }
}

fn login(name: &str, password: &str) -> LoginViewObject {
    LoginViewObject { username: name.to_string(), password: password.to_string() }
}

#[test]
fn login_with_right_password_issues_an_hour_long_token() {
    let stored = user("hunter22");
    let answer =
        login_service(&login("alice", "hunter22"), Ok(Some(stored.clone())), "s3cr3t", NOW)
            .expect("login");
    assert_eq!(answer.user_id, stored.id);
    assert_eq!(answer.username, "alice");
    assert_eq!(answer.nickname, Some("Al".to_string()));
    assert_eq!(answer.email, None);
    assert_eq!(answer.role, Some("user".to_string()));
    assert_eq!(answer.token_type, "bearer");
    assert_eq!(answer.expires_in, 3600);
    assert_eq!(SESSION_SECONDS, 3600);
    let claims = verify_jwt(&answer.access_token, "s3cr3t", NOW).expect("valid token");
    assert_eq!(claims.sub, stored.id);
    assert_eq!(claims.username, Some("alice".to_string()));
    assert_eq!(claims.exp, NOW + 3600);
}

#[test]
fn login_failures() {
    let stored = user("hunter22");
    assert_eq!(
        login_service(&login("alice", "wrong"), Ok(Some(stored.clone())), "s3cr3t", NOW),
        Err(AuthServiceError::InvalidCredentials)
    );
    assert_eq!(
        login_service(&login("nobody", "hunter22"), Ok(None), "s3cr3t", NOW),
        Err(AuthServiceError::InvalidCredentials)
    );
    assert_eq!(
        login_service(&login("alice", "hunter22"), Err("timeout".to_string()), "s3cr3t", NOW),
        Err(AuthServiceError::DatabaseError("timeout".to_string()))
    );
    let mut broken = stored.clone();
    broken.password_hash = "not-a-hash".to_string();
    match login_service(&login("alice", "hunter22"), Ok(Some(broken)), "s3cr3t", NOW) {
        Err(AuthServiceError::BcryptError(detail)) => assert!(detail.contains("InvalidHash")),
        other => panic!("unexpected {:?}", other),
    }
    assert_eq!(
        login_service(&login("alice", "hunter22"), Ok(Some(stored)), "s3cr3t", i64::MAX),
        Err(AuthServiceError::JwtError(IssueError::InvalidExpiration))
    );
}

#[test]
fn judge_password_cases() {
    assert_eq!(judge_password(Ok(true)), Ok(()));
    assert_eq!(judge_password(Ok(false)), Err(AuthServiceError::InvalidCredentials));
    assert_eq!(
        judge_password(Err("x".to_string())),
        Err(AuthServiceError::BcryptError("x".to_string()))
    );
}

#[test]
fn grant_login_cases() {
    let stored = user("pw");
    let answer = grant_login(stored.clone(), Ok("tok".to_string())).unwrap();
    assert_eq!(answer.access_token, "tok");
    assert_eq!(answer.user_id, stored.id);
    assert_eq!(
        grant_login(stored, Err(IssueError::Encoding)),
        Err(AuthServiceError::JwtError(IssueError::Encoding))
    );
}

#[test]
fn registration_first_half() {
    let form = RegisterViewObject { username: "alice".into(), password: "hunter22".into() };
    let data = register_service(&form, Ok(None)).expect("plan");
    assert_eq!(data.username, "alice");
    assert_ne!(data.password_hash, "hunter22");
    assert!(bcrypt::verify("hunter22", &data.password_hash).unwrap());
    assert!(!bcrypt::verify("hunter23", &data.password_hash).unwrap());
    assert_eq!(
        register_service(&form, Ok(Some(user("x")))),
        Err(AuthServiceError::UserAlreadyExists)
    );
    assert_eq!(
        register_service(&form, Err("gone".to_string())),
        Err(AuthServiceError::DatabaseError("gone".to_string()))
    );
}

#[test]
fn plan_registration_cases() {
    let form = RegisterViewObject { username: "alice".into(), password: "hunter22".into() };
    assert_eq!(
        plan_registration(&form, Ok(None), Some("HASH".to_string())),
        Ok(CreateUserData { username: "alice".into(), password_hash: "HASH".into() })
    );
    assert_eq!(
        plan_registration(&form, Ok(None), None),
        Err(AuthServiceError::PasswordHashError)
    );
    assert_eq!(
        plan_registration(&form, Ok(Some(user("x"))), Some("HASH".to_string())),
        Err(AuthServiceError::UserAlreadyExists)
    );
    assert_eq!(
        plan_registration(&form, Err("e".to_string()), None),
        Err(AuthServiceError::DatabaseError("e".to_string()))
    );
}

#[test]
fn registration_second_half() {
    let stored = user("pw");
    let answer = complete_registration(Ok(stored.clone()), "s3cr3t", NOW).expect("answer");
    assert_eq!(answer.user_id, stored.id);
    assert_eq!(answer.username, "alice");
    assert_eq!(answer.token_type, "bearer");
    assert_eq!(answer.expires_in, 3600);
    let claims = verify_jwt(&answer.access_token, "s3cr3t", NOW + 3599).expect("valid");
    assert_eq!(claims.sub, stored.id);
    assert_eq!(
        complete_registration(Err("dup".to_string()), "s3cr3t", NOW),
        Err(AuthServiceError::DatabaseError("dup".to_string()))
    );
    assert_eq!(
        complete_registration(Ok(stored.clone()), "s3cr3t", i64::MAX - 3599),
        Err(AuthServiceError::JwtError(IssueError::InvalidExpiration))
    );
    assert_eq!(
        grant_registration(Ok(stored), Err(IssueError::Encoding)),
        Err(AuthServiceError::JwtError(IssueError::Encoding))
    );
}

#[test]
fn error_messages() {
    assert_eq!(AuthServiceError::InvalidCredentials.message(), "Invalid username or password");
    assert_eq!(AuthServiceError::UserAlreadyExists.message(), "Username already exists");
    assert_eq!(AuthServiceError::PasswordHashError.message(), "Failed to hash password");
    assert_eq!(
        AuthServiceError::DatabaseError("Conn(x)".into()).message(),
        "Database error: Conn(x)"
    );
    assert_eq!(AuthServiceError::BcryptError("Bad".into()).message(), "Bcrypt error: Bad");
    assert_eq!(
        AuthServiceError::JwtError(IssueError::Encoding).message(),
        "JWT error: Encoding"
    );
    assert_eq!(
        AuthServiceError::JwtError(IssueError::InvalidExpiration).message(),
        "JWT error: InvalidExpiration"
    );
}

#[test]
fn registration_bounds_count_characters() {
    let ok = RegisterViewObject { username: "alice".into(), password: "12345678".into() };
    assert_eq!(ok.validate(), Ok(()));
    let longest = RegisterViewObject { username: "a".repeat(20), password: "b".repeat(20) };
    assert_eq!(longest.validate(), Ok(()));
    let short_name = RegisterViewObject { username: "abcd".into(), password: "12345678".into() };
    assert_eq!(
        short_name.validate(),
        Err(RegistrationErrors { username: true, password: false })
    );
    let long_password = RegisterViewObject { username: "alice".into(), password: "b".repeat(21) };
    assert_eq!(
        long_password.validate(),
        Err(RegistrationErrors { username: false, password: true })
    );
    let both = RegisterViewObject { username: "a".repeat(21), password: "1234567".into() };
    assert_eq!(both.validate(), Err(RegistrationErrors { username: true, password: true }));
    let unicode = RegisterViewObject { username: "用户名五字".into(), password: "密码密码密码密码".into() };
    assert_eq!(unicode.validate(), Ok(()));
    let errors = both.validate().unwrap_err();
    assert_eq!(errors.username_message(), Some("用户名必须介于5-20个字符之间"));
    assert_eq!(errors.password_message(), Some("密码必须介于8-20个字符之间"));
    let none = RegistrationErrors { username: false, password: false };
    assert_eq!(none.username_message(), None);
    assert_eq!(none.password_message(), None);
}

#[test]
fn envelope() {
    let refused: ApiResponse<()> = ApiResponse::failure("invalid or expired token");
    assert!(!refused.success);
    assert_eq!(refused.data, None);
    assert_eq!(refused.message, Some("invalid or expired token".to_string()));
    assert_eq!(refused.to_text(), "\"invalid or expired token\"");
    let done = ApiResponse::success(7u32, "ok");
    assert!(done.success);
    assert_eq!(done.data, Some(7));
    assert_eq!(done.to_text(), "\"ok\"");
    let tricky: ApiResponse<()> = ApiResponse::failure("a\"b\n");
    assert_eq!(tricky.to_text(), "\"a\\\"b\\n\"");
    let artist = CreateArtistViewObject {
        name: "N".into(),
        nationality: None,
        birth_date: Some("1990-01-02".into()),
        avatar: None,
        sex: None,
    };
    assert_eq!(ApiResponse::success(artist.clone(), "m").data, Some(artist));
}

#[test]
fn paging_windows() {
    assert_eq!(page_window(1, 20), Some(Window { offset: 0, limit: 20 }));
    assert_eq!(page_window(3, 20), Some(Window { offset: 40, limit: 20 }));
    assert_eq!(page_window(0, 20), None);
    assert_eq!(page_window(5, 0), Some(Window { offset: 0, limit: 0 }));
    assert_eq!(page_window(u64::MAX, 2), None);
    assert_eq!(page_window(u64::MAX, 1), Some(Window { offset: u64::MAX - 1, limit: 1 }));
    assert_eq!(listing_page(None, None), Some(Window { offset: 0, limit: 20 }));
    assert_eq!(listing_page(Some(2), None), Some(Window { offset: 20, limit: 20 }));
    assert_eq!(listing_page(None, Some(5)), Some(Window { offset: 0, limit: 5 }));
    assert_eq!(listing_page(Some(4), Some(7)), Some(Window { offset: 21, limit: 7 }));
    assert_eq!(listing_page(Some(0), Some(7)), None);
    assert_eq!(artist_page(None, Some(3)), None);
    assert_eq!(artist_page(Some(2), None), Some(Some(Window { offset: 10, limit: 10 })));
    assert_eq!(artist_page(Some(2), Some(3)), Some(Some(Window { offset: 3, limit: 3 })));
    assert_eq!(artist_page(Some(0), None), Some(None));
}

#[test]
fn password_strength() {
    assert!(is_valid_password("Abcdefg1"));
    assert!(is_valid_password("xxxxA1xxxx"));
    assert!(!is_valid_password("Abcdef1"));
    assert!(!is_valid_password("abcdefg1"));
    assert!(!is_valid_password("ABCDEFG1"));
    assert!(!is_valid_password("Abcdefgh"));
    assert!(!is_valid_password(""));
    assert!(is_valid_password("Éé1éé"));
    assert!(!is_valid_password("Éé1é"));
    assert!(!is_valid_password("Éé1"));
    assert!(!is_valid_password("Abcdefg١"));
    assert!(is_valid_password("ǅabcdef1A"));
    assert!(!is_valid_password("ǅǅǅǅǅǅǅ1"));
}

#[test]
fn email_shape() {
    assert!(is_valid_email("a@b.co"));
    assert!(is_valid_email("first.last+tag@sub.example.org"));
    assert!(is_valid_email("a_%+-.9@x-y.z9.Io"));
    assert!(!is_valid_email(""));
    assert!(!is_valid_email("a@b"));
    assert!(!is_valid_email("a@b.c"));
    assert!(!is_valid_email("@b.co"));
    assert!(!is_valid_email("a@.co"));
    assert!(!is_valid_email("a@b.c0"));
    assert!(!is_valid_email("a b@c.de"));
    assert!(!is_valid_email("a@b@c.de"));
    assert!(!is_valid_email("a@b.co\n"));
    assert!(!is_valid_email(" a@b.co"));
    assert!(!is_valid_email("é@b.co"));
    assert!(accept_match(Some(true)));
    assert!(!accept_match(Some(false)));
    assert!(!accept_match(None));
}
