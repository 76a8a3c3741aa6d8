use sso::config::{Config, DEFAULT_PORT};
use sso::helpers::{
    Body, InternalError, IntoResponse, ManualErrorHandle, ManualErrorHandling, Response,
    TokenHeader, Validatable, Validate, ValidationRejection,
};
use sso::routes::{
    activation_rate_limit, login_at, login_client, login_page, login_redirect, login_refusal,
    profile, send_activation_email, ActivateForm, ActivateQuery, LoginForm, RegisterForm,
};
use sso::services::clients::Client;
use sso::services::email::{ActivationEmailError, EmailService};
use sso::services::oauth2::Oauth2Service;
use sso::services::rate_limit::RateLimitService;
use sso::services::tokens::jwt::JwtType;
use sso::services::tokens::{JwtSecret, TokenService};
use sso::services::users::password::{hash_password, verify_password};
use sso::services::users::{
    DatabaseFailure, NewUser, RegisterError, User, UserService, UserValidationError,
};
use sso::text::{byte_len, same_text};
use std::sync::Arc;

fn text_of(response: &Response) -> &str {
    match &response.body {
        Body::Text(text) => text,
        other => panic!("no text body: {other:?}"),
    }
}

fn location_of(response: &Response) -> &str {
    match &response.body {
        Body::Redirect(location) => location,
        other => panic!("no redirection: {other:?}"),
    }
}

fn user(password: &str, activated: bool) -> User {
    User {
        id: 9,
        username: "alice".to_string(),
        email: "alice@example.org".to_string(),
        password: hash_password(password).unwrap(),
        activated_at: if activated { Some(1_700_000_000) } else { None },
    }
}

fn form() -> LoginForm {
    LoginForm {
        username: "alice".to_string(),
        password: "correct horse".to_string(),
        client_id: "c1".to_string(),
        redirect_uri: "https://app/cb".to_string(),
    }
}

fn client() -> Client {
    Client { client_secret: String::new(), redirect_uri: "https://app/cb".to_string() }
}

fn oauth2() -> Oauth2Service {
    Oauth2Service::new(Arc::new(TokenService::new(JwtSecret(b"accounts secret"))))
}

#[test]
fn hashed_password_verifies_and_no_other() {
    let hash = hash_password("correct horse").unwrap();
    assert_ne!(hash, "correct horse");
    assert!(hash.starts_with("$argon2"));
    assert!(matches!(verify_password("correct horse", &hash), Ok(true)));
    assert!(matches!(verify_password("wrong horse", &hash), Ok(false)));
    assert!(matches!(verify_password("", &hash), Ok(false)));
    assert_ne!(hash_password("correct horse").unwrap(), hash);
}

#[test]
fn unreadable_hash_is_an_error() {
    assert!(matches!(
        verify_password("x", "no hash"),
        Err(InternalError::PasswordHash(_))
    ));
    assert!(matches!(verify_password("x", ""), Err(InternalError::PasswordHash(_))));
}

#[test]
fn client_secret_is_checked_against_its_hash() {
    let client = Client {
        client_secret: hash_password("s3cret").unwrap(),
        redirect_uri: "https://app/cb".to_string(),
    };
    assert!(matches!(client.is_secret_match("s3cret"), Ok(true)));
    assert!(matches!(client.is_secret_match("S3cret"), Ok(false)));
    let broken = Client { client_secret: "?".to_string(), redirect_uri: String::new() };
    assert!(matches!(
        broken.is_secret_match("s3cret"),
        Err(InternalError::PasswordHash(_))
    ));
}

#[test]
fn login_rules_in_their_order() {
    let users = UserService::new();
    assert!(matches!(
        users.validate_and_return(None, "x"),
        Err(UserValidationError::UserNotFound)
    ));
    assert!(matches!(
        users.validate_and_return(Some(user("correct horse", false)), "wrong"),
        Err(UserValidationError::InvalidPassword)
    ));
    assert!(matches!(
        users.validate_and_return(Some(user("correct horse", false)), "correct horse"),
        Err(UserValidationError::NotActivated)
    ));
    let known = users
        .validate_and_return(Some(user("correct horse", true)), "correct horse")
        .unwrap();
    assert_eq!(known.id, 9);
    assert_eq!(known.username, "alice");
    let mut broken = user("correct horse", true);
    broken.password = "no hash".to_string();
    assert!(matches!(
        users.validate_and_return(Some(broken), "correct horse"),
        Err(UserValidationError::InternalError(InternalError::PasswordHash(_)))
    ));
}

#[test]
fn registration_stores_a_hash() {
    let users = UserService::new();
    let new = users
        .register("bob".to_string(), "bob@example.org".to_string(), "hunter22".to_string())
        .unwrap();
    assert_eq!(new.username, "bob");
    assert_eq!(new.email, "bob@example.org");
    assert!(matches!(verify_password("hunter22", &new.password), Ok(true)));
    let plain = NewUser::new("a".to_string(), "b".to_string(), "c".to_string());
    assert_eq!((plain.username, plain.email, plain.password), ("a".into(), "b".into(), "c".into()));
}

#[test]
fn failed_insertion_says_which_name_is_taken() {
    let failure = |constraint: Option<&str>| {
        ManualErrorHandling(DatabaseFailure {
            constraint: constraint.map(|name| name.to_string()),
            message: "duplicate key".to_string(),
        })
    };
    assert!(matches!(
        RegisterError::from(failure(Some("unique_username"))),
        RegisterError::UsernameTaken
    ));
    assert!(matches!(
        RegisterError::from(failure(Some("unique_email"))),
        RegisterError::EmailTaken
    ));
    assert!(matches!(
        RegisterError::from(failure(Some("users_pkey"))),
        RegisterError::InternalError(InternalError::Database(text)) if text == "duplicate key"
    ));
    assert!(matches!(
        RegisterError::from(failure(None)),
        RegisterError::InternalError(InternalError::Database(_))
    ));
}

#[test]
fn registration_errors_have_their_answers() {
    let response = RegisterError::UsernameTaken.into_response();
    assert_eq!((response.status, text_of(&response)), (409, "username already taken"));
    let response = RegisterError::EmailTaken.into_response();
    assert_eq!((response.status, text_of(&response)), (409, "email already taken"));
    let response =
        RegisterError::InternalError(InternalError::Database("x".to_string())).into_response();
    assert_eq!((response.status, text_of(&response)), (500, ""));
}

fn registration(username: &str, email: &str, password: &str) -> Result<(), Response> {
    RegisterForm {
        username: username.to_string(),
        email: email.to_string(),
        password: password.to_string(),
    }
    .validate()
}

#[test]
fn registration_form_is_judged_field_by_field() {
    assert!(registration("bob", "bob@example.org", "12345678").is_ok());
    assert!(registration(&"u".repeat(32), "bob@example.org", &"p".repeat(32)).is_ok());

    for username in ["", "ab", &"u".repeat(33)] {
        let response = registration(username, "nobody", "x").unwrap_err();
        assert_eq!(response.status, 400);
        assert_eq!(text_of(&response), "username must be between 3 and 32 characters");
    }
    for email in ["", "nobody", "a@", "@b.c", "a b@c.d"] {
        let response = registration("bob", email, "x").unwrap_err();
        assert_eq!(response.status, 400);
        assert_eq!(text_of(&response), "invalid email address");
    }
    for password in ["", "1234567", &"p".repeat(33)] {
        let response = registration("bob", "bob@example.org", password).unwrap_err();
        assert_eq!(response.status, 400);
        assert_eq!(text_of(&response), "password must be between 8 and 32 characters");
    }
}

#[test]
fn lengths_are_counted_in_bytes() {
    assert_eq!(byte_len(""), 0);
    assert_eq!(byte_len("abc"), 3);
    assert_eq!(byte_len("ä"), 2);
    assert_eq!(byte_len("€uro"), 6);
    assert!(registration("ä", "bob@example.org", "12345678").is_err());
    assert!(registration("äö", "bob@example.org", "12345678").is_ok());
    assert!(same_text("äö", "äö"));
    assert!(!same_text("a", "A"));
}

#[test]
fn read_body_is_validated() {
    let good = RegisterForm {
        username: "bob".to_string(),
        email: "bob@example.org".to_string(),
        password: "12345678".to_string(),
    };
    let extracted: Result<RegisterForm, Response> = Ok(good);
    let Validate(read) = match Validate::from_request(extracted) {
        Ok(valid) => valid,
        Err(_) => panic!("a valid body was rejected"),
    };
    assert_eq!(read.username, "bob");

    let bad = RegisterForm {
        username: "b".to_string(),
        email: "bob@example.org".to_string(),
        password: "12345678".to_string(),
    };
    let extracted: Result<RegisterForm, Response> = Ok(bad);
    match Validate::from_request(extracted) {
        Err(rejection @ ValidationRejection::ValidationFailed(_)) => {
            let response = rejection.into_response();
            assert_eq!(response.status, 400);
            assert_eq!(text_of(&response), "username must be between 3 and 32 characters");
        }
        _ => panic!("an invalid body was not rejected for its fault"),
    }

    let unread: Result<RegisterForm, Response> = Err(Response::text(415, "no json"));
    match Validate::from_request(unread) {
        Err(rejection @ ValidationRejection::FromRequestRejection(_)) => {
            let response = rejection.into_response();
            assert_eq!((response.status, text_of(&response)), (415, "no json"));
        }
        _ => panic!("an unread body did not keep its rejection"),
    }
}

#[test]
fn errors_are_wrapped_and_unwrapped() {
    let result: Result<u8, &str> = Err("broken");
    match result.manual_error_handling() {
        Err(wrapped) => assert_eq!(wrapped.into_inner(), "broken"),
        Ok(_) => panic!("an error became a value"),
    }
    let result: Result<u8, &str> = Ok(3);
    assert!(matches!(result.manual_error_handling(), Ok(3)));
    assert_eq!(ManualErrorHandling(7).into_inner(), 7);
}

#[test]
fn bearer_token_follows_the_prefix() {
    let header = TokenHeader::new("Bearer abc.def.ghi".to_string());
    assert_eq!(header.to_bearer_token().unwrap(), "abc.def.ghi");
    assert_eq!(TokenHeader::new("Bearer ".to_string()).to_bearer_token().unwrap(), "");
    assert_eq!(TokenHeader::new("Bearer  x".to_string()).to_bearer_token().unwrap(), " x");
    assert_eq!(TokenHeader::new("Bearer ä€".to_string()).to_bearer_token().unwrap(), "ä€");
    for value in ["", "Bearer", "bearer abc", "Basic abc", "Bearerabc", " Bearer abc", "ääääääää"] {
        let response = match TokenHeader::new(value.to_string()).to_bearer_token() {
            Err(response) => response,
            Ok(token) => panic!("{value:?} gave the token {token:?}"),
        };
        assert_eq!(response.status, 400);
        assert_eq!(text_of(&response), "invalid Authorization header");
    }
}

#[test]
fn internal_errors_in_words() {
    let cases = [
        (InternalError::ConnectionPool("x".to_string()), "connection pool error: x"),
        (InternalError::Database("x".to_string()), "database error: x"),
        (InternalError::PasswordHash("x".to_string()), "password hash error: x"),
        (InternalError::Jwt("x".to_string()), "jwt error: x"),
        (InternalError::R2d2("x".to_string()), "kvs pool error: x"),
        (InternalError::Redis("x".to_string()), "redis error: x"),
        (InternalError::Lettre("x".to_string()), "lettre error: x"),
        (InternalError::LettreSmtp("x".to_string()), "lettre smtp error: x"),
    ];
    for (error, words) in cases {
        assert_eq!(error.to_string(), words);
        let response = error.into_response();
        assert_eq!((response.status, text_of(&response)), (500, ""));
    }
    let response = Response::text(404, "nothing").into_response();
    assert_eq!((response.status, text_of(&response)), (404, "nothing"));
}

#[test]
fn login_checks_the_client_first() {
    let response = login_client(None, &form()).unwrap_err();
    assert_eq!((response.status, text_of(&response)), (400, "client_id is invalid"));
    let other = Client { client_secret: String::new(), redirect_uri: "https://other/cb".to_string() };
    let response = login_client(Some(&other), &form()).unwrap_err();
    assert_eq!((response.status, text_of(&response)), (400, "redirect_uri mismatch"));
    assert!(login_client(Some(&client()), &form()).is_ok());

    let response =
        login_at(&oauth2(), &form(), None, Err(UserValidationError::UserNotFound), 1_000)
            .unwrap_err();
    assert_eq!(text_of(&response), "client_id is invalid");
}

#[test]
fn refused_login_goes_back_to_the_login_page() {
    assert_eq!(
        login_page("e", &form()),
        "/oauth2/login?error=e&client_id=c1&redirect_uri=https://app/cb"
    );
    for error in [UserValidationError::UserNotFound, UserValidationError::InvalidPassword] {
        let response = login_refusal(&error, &form());
        assert_eq!(response.status, 303);
        assert_eq!(
            location_of(&response),
            "/oauth2/login?error=invalid_credentials&client_id=c1&redirect_uri=https://app/cb"
        );
    }
    let response = login_refusal(&UserValidationError::NotActivated, &form());
    assert_eq!(
        location_of(&response),
        "/oauth2/login?error=not_activated&client_id=c1&redirect_uri=https://app/cb"
    );
    let internal = UserValidationError::InternalError(InternalError::Database("x".to_string()));
    let response = login_refusal(&internal, &form());
    assert_eq!((response.status, text_of(&response)), (500, ""));

    let response = login_at(
        &oauth2(),
        &form(),
        Some(&client()),
        Err(UserValidationError::NotActivated),
        1_000,
    )
    .unwrap_err();
    assert!(location_of(&response).contains("error=not_activated"));
}

#[test]
fn login_sends_the_code_to_the_client() {
    let oauth2 = oauth2();
    let response = login_at(
        &oauth2,
        &form(),
        Some(&client()),
        Ok(user("correct horse", true)),
        1_000,
    )
    .unwrap();
    assert_eq!(response.status, 303);
    let location = location_of(&response);
    let code = location.strip_prefix("https://app/cb?code=").unwrap();
    let claims = oauth2.token_service.verify_any_at(code, 1_001).unwrap();
    assert_eq!(claims.jwt_type, JwtType::AuthorizationCode);
    assert_eq!(claims.aud, "c1");
    assert_eq!(claims.sub, 9);
    assert_eq!(claims.exp, 1_300);
}

#[test]
fn code_is_added_to_the_query_of_the_redirect_uri() {
    let mut login = form();
    login.redirect_uri = "https://app/cb?keep=1".to_string();
    let response = login_redirect(&login, "a b&c").unwrap();
    assert_eq!(location_of(&response), "https://app/cb?keep=1&code=a+b%26c");
    login.redirect_uri = "no url".to_string();
    let response = login_redirect(&login, "abc").unwrap_err();
    assert_eq!(response.status, 400);
    assert!(text_of(&response).starts_with("invalid redirect url: "));
    assert!(text_of(&response).len() > "invalid redirect url: ".len());
}

#[test]
fn profile_shows_name_and_address() {
    let shown = profile(Some(user("x", true))).unwrap();
    assert_eq!(shown.username, "alice");
    assert_eq!(shown.email, "alice@example.org");
    let response = profile(None).unwrap_err();
    assert_eq!((response.status, text_of(&response)), (401, "user not found"));
}

#[test]
fn activation_mail_is_decided_after_the_rate() {
    let response = send_activation_email(false, Some(user("x", false))).unwrap_err();
    assert_eq!((response.status, text_of(&response)), (429, ""));
    assert!(matches!(send_activation_email(true, None), Ok(None)));
    assert!(matches!(send_activation_email(true, Some(user("x", true))), Ok(None)));
    let recipient = send_activation_email(true, Some(user("x", false))).unwrap().unwrap();
    assert_eq!(recipient.email, "alice@example.org");

    let asked = ActivateForm { email: "alice@example.org".to_string() };
    let request = activation_rate_limit(&RateLimitService::new(), &asked);
    assert_eq!(request.key, "activation_email:alice@example.org");
    assert_eq!(request.value, "activation_email:alice@example.org");
    assert_eq!(request.ttl, 60);
    let query = ActivateQuery { code: "abc".to_string() };
    assert_eq!(query.code, "abc");
}

#[test]
fn activation_mail_links_to_the_code() {
    let service = EmailService::new(
        "https://sso.example.org/activate".to_string(),
        "noreply@example.org".to_string(),
    )
    .set_sender_name("SSO".to_string());
    let mail = service
        .send_activation_email("Alice".to_string(), "alice@example.org", "abc.def")
        .unwrap();
    assert_eq!(mail.body, "https://sso.example.org/activate?code=abc.def");
    assert_eq!(mail.subject, "Activation Link for agus.dev SSO");
    assert_eq!(mail.recipient_name, "Alice");
    assert_eq!(mail.recipient_email, "alice@example.org");
    assert_eq!(mail.sender_email, "noreply@example.org");
    assert_eq!(mail.sender_name.as_deref(), Some("SSO"));

    let refused = service.send_activation_email("Alice".to_string(), "no address", "abc");
    assert!(matches!(&refused, Err(ActivationEmailError::InvalidEmail(text)) if !text.is_empty()));
    let response = refused.unwrap_err().into_response();
    assert_eq!((response.status, text_of(&response)), (400, "invalid email address"));

    let broken = EmailService::new("nowhere".to_string(), "noreply@example.org".to_string());
    assert!(broken.sender_name.is_none());
    let failed = broken.send_activation_email("Alice".to_string(), "no address", "abc");
    assert!(matches!(
        &failed,
        Err(ActivationEmailError::InternalError(InternalError::Lettre(_)))
    ));
    let response = failed.unwrap_err().into_response();
    assert_eq!((response.status, text_of(&response)), (500, ""));
}

#[test]
fn port_has_a_default() {
    assert_eq!(DEFAULT_PORT, 3001);
    assert_eq!(Config::port_or_default(None), 3001);
    assert_eq!(Config::port_or_default(Some(8080)), 8080);
}

#[test]
fn internal_errors_convert_into_each_error() {
    let inner = || InternalError::Database("down".to_string());
    assert!(matches!(
        RegisterError::from(inner()),
        RegisterError::InternalError(InternalError::Database(_))
    ));
    assert!(matches!(
        UserValidationError::from(inner()),
        UserValidationError::InternalError(InternalError::Database(_))
    ));
    assert!(matches!(
        ActivationEmailError::from(inner()),
        ActivationEmailError::InternalError(InternalError::Database(_))
    ));
}
