use sso::helpers::{Body, InternalError, IntoResponse};
use sso::kvs::MemoryKvs;
use sso::services::clients::Client;
use sso::services::oauth2::{
    AccessTokenError, Oauth2Service, TokenParams, ACCESS_TOKEN_LIFETIME,
    AUTHORIZATION_CODE_LIFETIME,
};
use sso::services::tokens::jwt::{JwtType, JwtVerifyError};
use sso::services::tokens::{JwtSecret, TokenService};
use sso::services::users::password::{hash_password, verify_password};
use std::sync::Arc;

const USER: u128 = 42;

fn oauth2() -> Oauth2Service {
    Oauth2Service::new(Arc::new(TokenService::new(JwtSecret(b"grant secret"))))
}

fn client() -> Client {
    Client {
        client_secret: hash_password("s3cret").unwrap(),
        redirect_uri: "https://app/cb".to_string(),
    }
}

fn params(code: &str) -> TokenParams {
    TokenParams {
        grant_type: "authorization_code".to_string(),
        code: code.to_string(),
        redirect_uri: "https://app/cb".to_string(),
        client_id: "c1".to_string(),
        client_secret: "s3cret".to_string(),
    }
}

#[test]
fn code_is_redeemed_once_for_an_access_token() {
    let oauth2 = oauth2();
    let client = client();
    let mut store = MemoryKvs::new();
    let code = oauth2
        .create_authorization_code_at("c1".to_string(), USER, 1_000)
        .unwrap();

    let granted = oauth2
        .redeem_at(&mut store, &params(&code), Some(&client), 1_010)
        .unwrap();
    assert_eq!(granted.token_type, "Bearer");
    assert_eq!(granted.expires_in, 3_600);
    assert!(granted.refresh_token.is_none());
    assert!(granted.scope.is_none());
    let claims = oauth2
        .token_service
        .verify_access_token_at(&granted.access_token, 1_011)
        .unwrap();
    assert_eq!(claims.aud, "c1");
    assert_eq!(claims.sub, USER);
    assert_eq!(claims.jwt_type, JwtType::AccessToken);
    assert_eq!(claims.iat, 1_010);
    assert_eq!(claims.exp, 4_610);

    let again = oauth2.redeem_at(&mut store, &params(&code), Some(&client), 1_020);
    assert!(matches!(again, Err(AccessTokenError::AuthorizationCodeUsed)));
    let later = oauth2.redeem_at(&mut store, &params(&code), Some(&client), 1_299);
    assert!(matches!(later, Err(AccessTokenError::AuthorizationCodeUsed)));
}

#[test]
fn redirect_mismatch_does_not_consume_the_code() {
    let oauth2 = oauth2();
    let client = client();
    let mut store = MemoryKvs::new();
    let code = oauth2
        .create_authorization_code_at("c1".to_string(), USER, 1_000)
        .unwrap();

    let mut wrong = params(&code);
    wrong.redirect_uri = "https://evil/cb".to_string();
    let refused = oauth2.redeem_at(&mut store, &wrong, Some(&client), 1_010);
    assert!(matches!(refused, Err(AccessTokenError::RedirectUriMismatch)));

    let granted = oauth2.redeem_at(&mut store, &params(&code), Some(&client), 1_020);
    assert!(granted.is_ok());
}

#[test]
fn wrong_client_secret_does_not_consume_the_code() {
    let oauth2 = oauth2();
    let client = client();
    let mut store = MemoryKvs::new();
    let code = oauth2
        .create_authorization_code_at("c1".to_string(), USER, 1_000)
        .unwrap();

    let mut wrong = params(&code);
    wrong.client_secret = "guess".to_string();
    let refused = oauth2.redeem_at(&mut store, &wrong, Some(&client), 1_010);
    assert!(matches!(refused, Err(AccessTokenError::ClientAuthenticationFailed)));

    let granted = oauth2.redeem_at(&mut store, &params(&code), Some(&client), 1_299);
    assert!(granted.is_ok());
    let expired = oauth2.redeem_at(&mut MemoryKvs::new(), &params(&code), Some(&client), 1_300);
    assert!(matches!(
        expired,
        Err(AccessTokenError::InvalidToken(JwtVerifyError::ExpiredToken))
    ));
}

#[test]
fn wrong_secret_is_refused_before_the_code_is_looked_at() {
    let oauth2 = oauth2();
    let client = client();
    let mut wrong = params("not even a token");
    wrong.client_secret = "guess".to_string();
    wrong.grant_type = "password".to_string();
    let refused = oauth2.access_token_at(&wrong, Some(&client), 1_010);
    assert!(matches!(refused, Err(AccessTokenError::ClientAuthenticationFailed)));
}

#[test]
fn unknown_client_fails_like_a_wrong_secret() {
    let oauth2 = oauth2();
    let code = oauth2
        .create_authorization_code_at("c1".to_string(), USER, 1_000)
        .unwrap();
    let refused = oauth2.access_token_at(&params(&code), None, 1_010);
    assert!(matches!(refused, Err(AccessTokenError::ClientAuthenticationFailed)));
}

#[test]
fn unreadable_client_hash_is_an_internal_error() {
    let oauth2 = oauth2();
    let client = Client {
        client_secret: "plain text, no hash".to_string(),
        redirect_uri: "https://app/cb".to_string(),
    };
    let expected = match verify_password("s3cret", "plain text, no hash") {
        Err(InternalError::PasswordHash(message)) => message,
        other => panic!("the hash was read: {other:?}"),
    };
    assert!(!expected.is_empty());
    let refused = oauth2.access_token_at(&params("x"), Some(&client), 1_010);
    assert!(matches!(
        refused,
        Err(AccessTokenError::InternalError(InternalError::PasswordHash(message)))
            if message == expected
    ));
}

#[test]
fn token_errors_come_before_the_grant_type() {
    let oauth2 = oauth2();
    let client = client();
    let mut request = params("garbage");
    request.grant_type = "password".to_string();
    assert!(matches!(
        oauth2.access_token_at(&request, Some(&client), 1_010),
        Err(AccessTokenError::InvalidToken(JwtVerifyError::InvalidToken))
    ));
    let code = oauth2
        .create_authorization_code_at("c1".to_string(), USER, 1_000)
        .unwrap();
    let mut request = params(&code);
    request.grant_type = "password".to_string();
    assert!(matches!(
        oauth2.access_token_at(&request, Some(&client), 1_300),
        Err(AccessTokenError::InvalidToken(JwtVerifyError::ExpiredToken))
    ));
    assert!(matches!(
        oauth2.access_token_at(&request, Some(&client), 1_010),
        Err(AccessTokenError::UnsupportedGrantType)
    ));
}

#[test]
fn checks_on_the_code_come_in_their_order() {
    let oauth2 = oauth2();
    let client = client();
    let access = oauth2
        .token_service
        .create_access_token_at("other".to_string(), USER, 3_600, 1_000)
        .unwrap();
    let mut request = params(&access);
    request.redirect_uri = "https://evil/cb".to_string();
    assert!(matches!(
        oauth2.access_token_at(&request, Some(&client), 1_010),
        Err(AccessTokenError::TokenTypeMismatch)
    ));

    let code = oauth2
        .create_authorization_code_at("other".to_string(), USER, 1_000)
        .unwrap();
    let mut request = params(&code);
    request.redirect_uri = "https://evil/cb".to_string();
    assert!(matches!(
        oauth2.access_token_at(&request, Some(&client), 1_010),
        Err(AccessTokenError::TokenAudienceMismatch)
    ));

    let code = oauth2
        .create_authorization_code_at("c1".to_string(), USER, 1_000)
        .unwrap();
    let mut request = params(&code);
    request.redirect_uri = "https://evil/cb".to_string();
    assert!(matches!(
        oauth2.access_token_at(&request, Some(&client), 1_010),
        Err(AccessTokenError::RedirectUriMismatch)
    ));
}

#[test]
fn pending_grant_names_the_request_to_the_store() {
    let oauth2 = oauth2();
    let client = client();
    let code = oauth2
        .create_authorization_code_at("c1".to_string(), USER, 1_000)
        .unwrap();
    let pending = oauth2
        .access_token_at(&params(&code), Some(&client), 1_010)
        .unwrap();
    assert_eq!(pending.request.key, format!("authorization_token:{code}"));
    assert_eq!(pending.request.value, code);
    assert_eq!(pending.request.ttl, 300);
    assert_eq!(pending.client_id, "c1");
    assert_eq!(pending.subject, USER);
}

#[test]
fn grant_follows_the_answer_of_the_store() {
    let oauth2 = oauth2();
    let client = client();
    let code = oauth2
        .create_authorization_code_at("c1".to_string(), USER, 1_000)
        .unwrap();

    let pending = oauth2
        .access_token_at(&params(&code), Some(&client), 1_010)
        .unwrap();
    assert!(matches!(
        oauth2.grant_at(pending, Ok(false), 1_010),
        Err(AccessTokenError::AuthorizationCodeUsed)
    ));

    let pending = oauth2
        .access_token_at(&params(&code), Some(&client), 1_010)
        .unwrap();
    let failure = Err(InternalError::Redis("connection refused".to_string()));
    assert!(matches!(
        oauth2.grant_at(pending, failure, 1_010),
        Err(AccessTokenError::InternalError(InternalError::Redis(message)))
            if message == "connection refused"
    ));

    let pending = oauth2
        .access_token_at(&params(&code), Some(&client), 1_010)
        .unwrap();
    let granted = oauth2.grant_at(pending, Ok(true), 1_010).unwrap();
    assert_eq!(granted.expires_in, ACCESS_TOKEN_LIFETIME);
}

#[test]
fn codes_of_the_service_last_five_minutes() {
    assert_eq!(AUTHORIZATION_CODE_LIFETIME, 300);
    let oauth2 = oauth2();
    let code = oauth2
        .create_authorization_code_at("c1".to_string(), USER, 1_000)
        .unwrap();
    let claims = oauth2.token_service.verify_any_at(&code, 1_299).unwrap();
    assert_eq!(claims.exp, 1_300);
}

#[test]
fn redemption_runs_on_the_clock_too() {
    let oauth2 = oauth2();
    let client = client();
    let code = oauth2.create_authorization_code("c1".to_string(), USER).unwrap();
    let pending = oauth2.access_token(&params(&code), Some(&client)).unwrap();
    let granted = oauth2.grant(pending, Ok(true)).unwrap();
    let claims = oauth2
        .token_service
        .verify_access_token(&granted.access_token)
        .unwrap();
    assert_eq!(claims.aud, "c1");
    assert_eq!(claims.exp, claims.iat + 3_600);
    let authenticated = oauth2.authenticate(Some(&client), "s3cret");
    assert!(authenticated.is_ok());
}

fn oauth_body(error: AccessTokenError) -> (u16, String, Option<String>) {
    let response = error.into_response();
    match response.body {
        Body::OauthError(body) => (
            response.status,
            body.error.to_string(),
            body.error_description.map(|text| text.to_string()),
        ),
        other => panic!("no OAuth2 error body: {other:?}"),
    }
}

#[test]
fn each_refusal_has_its_answer() {
    assert_eq!(
        oauth_body(AccessTokenError::UnsupportedGrantType),
        (400, "unsupported_grant_type".to_string(), None)
    );
    assert_eq!(
        oauth_body(AccessTokenError::ClientAuthenticationFailed),
        (401, "invalid_client".to_string(), None)
    );
    let grant = |description: &str| {
        (400, "invalid_grant".to_string(), Some(description.to_string()))
    };
    assert_eq!(
        oauth_body(AccessTokenError::TokenTypeMismatch),
        grant("token type mismatch")
    );
    assert_eq!(
        oauth_body(AccessTokenError::TokenAudienceMismatch),
        grant("token audience mismatch")
    );
    assert_eq!(
        oauth_body(AccessTokenError::RedirectUriMismatch),
        grant("redirect uri mismatch")
    );
    assert_eq!(
        oauth_body(AccessTokenError::AuthorizationCodeUsed),
        grant("authorization code already used")
    );
    assert_eq!(
        oauth_body(AccessTokenError::InvalidToken(JwtVerifyError::InvalidToken)),
        grant("invalid token")
    );
    assert_eq!(
        oauth_body(AccessTokenError::InvalidToken(JwtVerifyError::ExpiredToken)),
        grant("expired token")
    );
}

#[test]
fn internal_errors_show_nothing() {
    let inner = || InternalError::Jwt("detail".to_string());
    for error in [
        AccessTokenError::InternalError(inner()),
        AccessTokenError::InvalidToken(JwtVerifyError::InternalError(inner())),
    ] {
        let response = error.into_response();
        assert_eq!(response.status, 500);
        assert!(matches!(response.body, Body::Text(text) if text.is_empty()));
    }
}

#[test]
fn refusals_in_words() {
    assert_eq!(AccessTokenError::UnsupportedGrantType.to_string(), "unsupported grant type");
    assert_eq!(
        AccessTokenError::ClientAuthenticationFailed.to_string(),
        "client authentication failed"
    );
    assert_eq!(AccessTokenError::TokenAudienceMismatch.to_string(), "token audience mismatch");
    assert_eq!(AccessTokenError::RedirectUriMismatch.to_string(), "redirect uri mismatch");
    assert_eq!(
        AccessTokenError::AuthorizationCodeUsed.to_string(),
        "authorization code already used"
    );
    assert_eq!(AccessTokenError::TokenTypeMismatch.to_string(), "token type mismatch");
    assert_eq!(
        AccessTokenError::InvalidToken(JwtVerifyError::ExpiredToken).to_string(),
        "invalid token"
    );
    assert_eq!(
        AccessTokenError::InternalError(InternalError::Redis("down".to_string())).to_string(),
        "internal error: redis error: down"
    );
    assert_eq!(
        JwtVerifyError::InternalError(InternalError::Jwt("bad".to_string())).to_string(),
        "Internal error: jwt error: bad"
    );
}

#[test]
fn errors_convert_into_refusals() {
    assert!(matches!(
        AccessTokenError::from(JwtVerifyError::ExpiredToken),
        AccessTokenError::InvalidToken(JwtVerifyError::ExpiredToken)
    ));
    assert!(matches!(
        AccessTokenError::from(JwtVerifyError::InvalidToken),
        AccessTokenError::InvalidToken(JwtVerifyError::InvalidToken)
    ));
    assert!(matches!(
        AccessTokenError::from(InternalError::Redis("down".to_string())),
        AccessTokenError::InternalError(InternalError::Redis(text)) if text == "down"
    ));
}
