use crate::helpers::{
    text_response, Body, BodyView, InternalError, InternalErrorView, IntoResponse, Response,
    ResponseView,
};
use crate::kvs::{after, answer, created, MemoryKvs, Record, SetIfAbsent, SetIfAbsentView};
use crate::services::clients::Client;
use crate::services::tokens::jwt::{
    current_timestamp, timely, verified, Claims, ClaimsView, JwtType, JwtVerifyError,
    VerifyFailure,
};
use crate::services::tokens::{issued_claims, issues, used_code_key, TokenService, USED_CODE_TTL};
use crate::services::users::password::argon2_verdict;
use crate::text::same_text;
use std::sync::Arc;
use vstd::prelude::*;
use vstd::string::StringExecFns;

verus! {

/// Seconds for which an authorization code is good: five minutes.
pub const AUTHORIZATION_CODE_LIFETIME: u64 = 300;

/// Seconds for which an access token is good: sixty minutes.
pub const ACCESS_TOKEN_LIFETIME: u64 = 3600;

/// The one grant type that the token endpoint serves.
pub open spec fn authorization_code_grant() -> Seq<char> {
    "authorization_code"@
}

/// The authorization-code grant: issues codes and redeems them for access
/// tokens.
pub struct Oauth2Service {
    pub token_service: Arc<TokenService>,
}

/// What a client sends to the token endpoint.
#[derive(Debug)]
pub struct TokenParams {
    pub grant_type: String,
    pub code: String,
    pub redirect_uri: String,
    pub client_id: String,
    pub client_secret: String,
}

/// What the token endpoint answers on success.
#[derive(Debug)]
pub struct AccessToken {
    pub access_token: String,
    pub token_type: &'static str,
    pub expires_in: u64,
    pub refresh_token: Option<String>,
    pub scope: Option<String>,
}

/// Why the token endpoint refused.
#[derive(Debug)]
pub enum AccessTokenError {
    UnsupportedGrantType,
    ClientAuthenticationFailed,
    TokenAudienceMismatch,
    RedirectUriMismatch,
    AuthorizationCodeUsed,
    TokenTypeMismatch,
    InvalidToken(JwtVerifyError),
    InternalError(InternalError),
}

/// Why the token endpoint refused, as plain mathematical values.
pub enum GrantFailure {
    UnsupportedGrantType,
    ClientAuthenticationFailed,
    TokenAudienceMismatch,
    RedirectUriMismatch,
    AuthorizationCodeUsed,
    TokenTypeMismatch,
    InvalidToken(VerifyFailure),
    InternalError(InternalErrorView),
}

/// The body of an OAuth2 error answer.
#[derive(Debug)]
pub struct OauthErrorResponse {
    pub error: &'static str,
    pub error_description: Option<&'static str>,
}

/// The body of an OAuth2 error answer as plain mathematical values.
pub struct OauthErrorResponseView {
    pub error: Seq<char>,
    pub error_description: Option<Seq<char>>,
}

impl View for OauthErrorResponse {
    type V = OauthErrorResponseView;

    open spec fn view(&self) -> OauthErrorResponseView {
        OauthErrorResponseView {
            error: self.error@,
            error_description: match self.error_description {
                Some(text) => Some(text@),
                None => None,
            },
        }
    }
}

/// An OAuth2 error answer.
pub open spec fn oauth_error(
    status: u16,
    error: Seq<char>,
    error_description: Option<Seq<char>>,
) -> ResponseView {
    ResponseView {
        status,
        body: BodyView::OauthError(OauthErrorResponseView { error, error_description }),
    }
}

/// An `invalid_grant` answer with its description.
pub open spec fn invalid_grant(description: Seq<char>) -> ResponseView {
    oauth_error(400, "invalid_grant"@, Some(description))
}

/// The answer for each way in which the token endpoint refuses. Internal
/// errors show nothing but the status 500.
pub open spec fn failure_response(failure: GrantFailure) -> ResponseView {
    match failure {
        GrantFailure::UnsupportedGrantType => oauth_error(400, "unsupported_grant_type"@, None),
        GrantFailure::ClientAuthenticationFailed => oauth_error(401, "invalid_client"@, None),
        GrantFailure::TokenTypeMismatch => invalid_grant("token type mismatch"@),
        GrantFailure::TokenAudienceMismatch => invalid_grant("token audience mismatch"@),
        GrantFailure::RedirectUriMismatch => invalid_grant("redirect uri mismatch"@),
        GrantFailure::AuthorizationCodeUsed => invalid_grant("authorization code already used"@),
        GrantFailure::InvalidToken(VerifyFailure::InvalidToken) => invalid_grant("invalid token"@),
        GrantFailure::InvalidToken(VerifyFailure::ExpiredToken) => invalid_grant("expired token"@),
        GrantFailure::InvalidToken(VerifyFailure::InternalError(_)) => text_response(500, ""@),
        GrantFailure::InternalError(_) => text_response(500, ""@),
    }
}

impl OauthErrorResponse {
    /// An OAuth2 error answer with the given status.
    pub fn respond(status: u16, error: &'static str, error_description: Option<&'static str>) -> (response:
        Response)
        ensures
            response@ == oauth_error(
                status,
                error@,
                match error_description {
                    Some(text) => Some(text@),
                    None => None,
                },
            ),
    {
        Response { status, body: Body::OauthError(OauthErrorResponse { error, error_description }) }
    }
}

/// A redemption that has passed every check and waits for the store to
/// consume its code: the request to make, and for whom the access token
/// will be.
#[derive(Debug)]
pub struct PendingGrant {
    pub request: SetIfAbsent,
    pub client_id: String,
    pub subject: u128,
}

/// A pending grant as plain mathematical values.
pub struct PendingGrantView {
    pub request: SetIfAbsentView,
    pub client_id: Seq<char>,
    pub subject: u128,
}

impl View for PendingGrant {
    type V = PendingGrantView;

    open spec fn view(&self) -> PendingGrantView {
        PendingGrantView {
            request: self.request@,
            client_id: self.client_id@,
            subject: self.subject,
        }
    }
}

impl AccessTokenError {
    /// The error as plain mathematical values.
    pub open spec fn failure(&self) -> GrantFailure {
        match self {
            AccessTokenError::UnsupportedGrantType => GrantFailure::UnsupportedGrantType,
            AccessTokenError::ClientAuthenticationFailed => GrantFailure::ClientAuthenticationFailed,
            AccessTokenError::TokenAudienceMismatch => GrantFailure::TokenAudienceMismatch,
            AccessTokenError::RedirectUriMismatch => GrantFailure::RedirectUriMismatch,
            AccessTokenError::AuthorizationCodeUsed => GrantFailure::AuthorizationCodeUsed,
            AccessTokenError::TokenTypeMismatch => GrantFailure::TokenTypeMismatch,
            AccessTokenError::InvalidToken(error) => GrantFailure::InvalidToken(error.failure()),
            AccessTokenError::InternalError(error) => GrantFailure::InternalError(error@),
        }
    }
}

impl AccessTokenError {
    /// The error in words, for a log.
    pub fn to_string(&self) -> (text: String)
        ensures
            text@ == match self {
                AccessTokenError::UnsupportedGrantType => "unsupported grant type"@,
                AccessTokenError::ClientAuthenticationFailed => "client authentication failed"@,
                AccessTokenError::TokenAudienceMismatch => "token audience mismatch"@,
                AccessTokenError::RedirectUriMismatch => "redirect uri mismatch"@,
                AccessTokenError::AuthorizationCodeUsed => "authorization code already used"@,
                AccessTokenError::TokenTypeMismatch => "token type mismatch"@,
                AccessTokenError::InvalidToken(_) => "invalid token"@,
                AccessTokenError::InternalError(error) => "internal error: "@ + error.prefix()
                    + error.detail(),
            },
    {
        match self {
            AccessTokenError::UnsupportedGrantType => "unsupported grant type".to_owned(),
            AccessTokenError::ClientAuthenticationFailed => "client authentication failed".to_owned(),
            AccessTokenError::TokenAudienceMismatch => "token audience mismatch".to_owned(),
            AccessTokenError::RedirectUriMismatch => "redirect uri mismatch".to_owned(),
            AccessTokenError::AuthorizationCodeUsed => "authorization code already used".to_owned(),
            AccessTokenError::TokenTypeMismatch => "token type mismatch".to_owned(),
            AccessTokenError::InvalidToken(_) => "invalid token".to_owned(),
            AccessTokenError::InternalError(error) => {
                let mut text = String::from_str("internal error: ");
                text.append(error.to_string().as_str());
                text
            },
        }
    }
}

impl From<JwtVerifyError> for AccessTokenError {
    fn from(error: JwtVerifyError) -> (result: AccessTokenError) {
        AccessTokenError::InvalidToken(error)
    }
}

impl vstd::std_specs::convert::FromSpecImpl<JwtVerifyError> for AccessTokenError {
    open spec fn obeys_from_spec() -> bool {
        true
    }

    /// A refused code is an invalid token, with the reason kept.
    open spec fn from_spec(error: JwtVerifyError) -> AccessTokenError {
        AccessTokenError::InvalidToken(error)
    }
}

impl From<InternalError> for AccessTokenError {
    fn from(error: InternalError) -> (result: AccessTokenError) {
        AccessTokenError::InternalError(error)
    }
}

impl vstd::std_specs::convert::FromSpecImpl<InternalError> for AccessTokenError {
    open spec fn obeys_from_spec() -> bool {
        true
    }

    open spec fn from_spec(error: InternalError) -> AccessTokenError {
        AccessTokenError::InternalError(error)
    }
}

impl IntoResponse for AccessTokenError {
    open spec fn response(&self) -> ResponseView {
        failure_response(self.failure())
    }

    fn into_response(self) -> (response: Response) {
        match self {
            AccessTokenError::UnsupportedGrantType => OauthErrorResponse::respond(
                400,
                "unsupported_grant_type",
                None,
            ),
            AccessTokenError::ClientAuthenticationFailed => OauthErrorResponse::respond(
                401,
                "invalid_client",
                None,
            ),
            AccessTokenError::TokenTypeMismatch => OauthErrorResponse::respond(
                400,
                "invalid_grant",
                Some("token type mismatch"),
            ),
            AccessTokenError::TokenAudienceMismatch => OauthErrorResponse::respond(
                400,
                "invalid_grant",
                Some("token audience mismatch"),
            ),
            AccessTokenError::RedirectUriMismatch => OauthErrorResponse::respond(
                400,
                "invalid_grant",
                Some("redirect uri mismatch"),
            ),
            AccessTokenError::AuthorizationCodeUsed => OauthErrorResponse::respond(
                400,
                "invalid_grant",
                Some("authorization code already used"),
            ),
            AccessTokenError::InvalidToken(error) => match error {
                JwtVerifyError::InvalidToken => OauthErrorResponse::respond(
                    400,
                    "invalid_grant",
                    Some("invalid token"),
                ),
                JwtVerifyError::ExpiredToken => OauthErrorResponse::respond(
                    400,
                    "invalid_grant",
                    Some("expired token"),
                ),
                JwtVerifyError::InternalError(error) => error.into_response(),
            },
            AccessTokenError::InternalError(error) => error.into_response(),
        }
    }
}

/// The request that consumes `code`.
pub open spec fn consumption(code: Seq<char>) -> SetIfAbsentView {
    SetIfAbsentView { key: used_code_key(code), value: code, ttl: USED_CODE_TTL }
}

/// The checks on a code whose signature and expiry are good, in their
/// order: it must be an authorization code, issued to the client that
/// redeems it, and redeemed under the client's registered redirect URI.
pub open spec fn code_checks(
    claims: ClaimsView,
    registered_redirect: Seq<char>,
    client_id: Seq<char>,
    redirect_uri: Seq<char>,
) -> Result<(), GrantFailure> {
    if claims.jwt_type != JwtType::AuthorizationCode {
        Err(GrantFailure::TokenTypeMismatch)
    } else if claims.aud != client_id {
        Err(GrantFailure::TokenAudienceMismatch)
    } else if redirect_uri != registered_redirect {
        Err(GrantFailure::RedirectUriMismatch)
    } else {
        Ok(())
    }
}

/// Whether the client is who it says: it must be registered and its secret
/// must match the stored hash. An unknown client and a wrong secret are not
/// told apart; a stored hash that cannot be read is an internal error with
/// the hasher's message.
pub open spec fn authentication(
    registered: bool,
    verdict: Result<bool, Seq<char>>,
) -> Result<(), GrantFailure> {
    if !registered {
        Err(GrantFailure::ClientAuthenticationFailed)
    } else {
        match verdict {
            Err(message) => Err(
                GrantFailure::InternalError(InternalErrorView::PasswordHash(message)),
            ),
            Ok(false) => Err(GrantFailure::ClientAuthenticationFailed),
            Ok(true) => Ok(()),
        }
    }
}

/// Redemption up to the point where the code is to be consumed, in its
/// order: the client is authenticated before the code is looked at; then
/// the code is verified, the grant type is asked for, and the code is
/// checked against the client. The result is for whom the token will be.
pub open spec fn redemption(
    registered: bool,
    verdict: Result<bool, Seq<char>>,
    verification: Result<ClaimsView, VerifyFailure>,
    registered_redirect: Seq<char>,
    grant_type: Seq<char>,
    client_id: Seq<char>,
    redirect_uri: Seq<char>,
) -> Result<u128, GrantFailure> {
    match authentication(registered, verdict) {
        Err(failure) => Err(failure),
        Ok(_) => match verification {
            Err(failure) => Err(GrantFailure::InvalidToken(failure)),
            Ok(claims) => if grant_type != authorization_code_grant() {
                Err(GrantFailure::UnsupportedGrantType)
            } else {
                match code_checks(claims, registered_redirect, client_id, redirect_uri) {
                    Err(failure) => Err(failure),
                    Ok(_) => Ok(claims.sub),
                }
            },
        },
    }
}

/// Whether `result` is what `expected` says of a redemption of `params`.
pub open spec fn redeems(
    result: Result<PendingGrant, AccessTokenError>,
    expected: Result<u128, GrantFailure>,
    params: &TokenParams,
) -> bool {
    match result {
        Ok(pending) => expected == Ok::<u128, GrantFailure>(pending.subject) && pending@ == (
        PendingGrantView {
            request: consumption(params.code@),
            client_id: params.client_id@,
            subject: pending.subject,
        }),
        Err(error) => expected == Err::<u128, GrantFailure>(error.failure()),
    }
}

/// What the token endpoint answers for a pending grant once the store has
/// spoken: the store's failure is handed on as it is, a code that was
/// consumed before is refused, and a code consumed by this request buys the
/// access token of `claims`, as a Bearer token good for sixty minutes.
pub open spec fn grants(
    result: Result<AccessToken, AccessTokenError>,
    marked: Result<bool, InternalError>,
    secret: Seq<u8>,
    claims: ClaimsView,
) -> bool {
    match marked {
        Err(error) => result matches Err(refusal) && refusal.failure()
            == GrantFailure::InternalError(error@),
        Ok(false) => result matches Err(refusal) && refusal.failure()
            == GrantFailure::AuthorizationCodeUsed,
        Ok(true) => {
            &&& result matches Ok(token)
            &&& issues(Ok(token.access_token), secret, claims)
            &&& token.token_type@ == "Bearer"@
            &&& token.expires_in == ACCESS_TOKEN_LIFETIME
            &&& token.refresh_token is None
            &&& token.scope is None
        },
    }
}

/// A wrong client secret fails authentication whatever the code is worth,
/// and before anything is asked of the code.
pub proof fn lemma_wrong_secret_refused(
    verification: Result<ClaimsView, VerifyFailure>,
    registered_redirect: Seq<char>,
    grant_type: Seq<char>,
    client_id: Seq<char>,
    redirect_uri: Seq<char>,
)
    ensures
        redemption(
            true,
            Ok(false),
            verification,
            registered_redirect,
            grant_type,
            client_id,
            redirect_uri,
        ) matches Err(failure) && failure == GrantFailure::ClientAuthenticationFailed,
{
}

/// An unknown client fails authentication exactly as a wrong secret does.
pub proof fn lemma_unknown_client_refused(
    verdict: Result<bool, Seq<char>>,
    verification: Result<ClaimsView, VerifyFailure>,
    registered_redirect: Seq<char>,
    grant_type: Seq<char>,
    client_id: Seq<char>,
    redirect_uri: Seq<char>,
)
    ensures
        redemption(
            false,
            verdict,
            verification,
            registered_redirect,
            grant_type,
            client_id,
            redirect_uri,
        ) matches Err(failure) && failure == GrantFailure::ClientAuthenticationFailed,
{
}

/// A good authorization code that an authenticated client redeems under
/// another redirect URI than its registered one is refused for that
/// mismatch.
pub proof fn lemma_redirect_mismatch_refused(
    claims: ClaimsView,
    registered_redirect: Seq<char>,
    client_id: Seq<char>,
    redirect_uri: Seq<char>,
)
    requires
        claims.jwt_type == JwtType::AuthorizationCode,
        claims.aud == client_id,
        redirect_uri != registered_redirect,
    ensures
        redemption(
            true,
            Ok(true),
            Ok(claims),
            registered_redirect,
            authorization_code_grant(),
            client_id,
            redirect_uri,
        ) matches Err(failure) && failure == GrantFailure::RedirectUriMismatch,
{
}

/// A good authorization code that the client it was issued to redeems with
/// its own secret, under its registered redirect URI, passes every check.
pub proof fn lemma_good_redemption_passes(
    claims: ClaimsView,
    registered_redirect: Seq<char>,
    client_id: Seq<char>,
)
    requires
        claims.jwt_type == JwtType::AuthorizationCode,
        claims.aud == client_id,
    ensures
        redemption(
            true,
            Ok(true),
            Ok(claims),
            registered_redirect,
            authorization_code_grant(),
            client_id,
            registered_redirect,
        ) matches Ok(subject) && subject == claims.sub,
{
}

/// A code that was consumed can never be consumed again: while its mark is
/// held the store refuses it, and by the time the mark lapses the code has
/// expired. `claims` are those of a code issued by this service, first
/// consumed at `first` and presented again at `again`.
pub proof fn lemma_consumed_code_stays_consumed(
    store: Map<Seq<char>, Record>,
    code: Seq<char>,
    claims: ClaimsView,
    first: u64,
    again: u64,
)
    requires
        claims.exp == claims.iat + AUTHORIZATION_CODE_LIFETIME,
        claims.iat <= first <= again,
        answer(store, consumption(code), first as int),
    ensures
        !answer(after(store, consumption(code), first as int), consumption(code), again as int)
            || (timely(claims, again) matches Err(failure) && failure
            == VerifyFailure::ExpiredToken),
{
}

impl Oauth2Service {
    pub fn new(token_service: Arc<TokenService>) -> (service: Oauth2Service)
        ensures
            service.token_service == token_service,
    {
        Oauth2Service { token_service }
    }

    /// The secret under which this service's tokens are signed.
    pub open spec fn secret(&self) -> Seq<u8> {
        self.token_service.secret()
    }

    /// Issues an authorization code for `client_id` and `user_id` at the time
    /// `now`, good for five minutes.
    pub fn create_authorization_code_at(&self, client_id: String, user_id: u128, now: u64) -> (result:
        Result<String, InternalError>)
        requires
            now + AUTHORIZATION_CODE_LIFETIME <= u64::MAX,
        ensures
            issues(
                result,
                self.secret(),
                issued_claims(
                    JwtType::AuthorizationCode,
                    client_id@,
                    user_id,
                    AUTHORIZATION_CODE_LIFETIME,
                    now,
                ),
            ),
    {
        self.token_service.create_authorization_code_at(
            client_id,
            user_id,
            AUTHORIZATION_CODE_LIFETIME,
            now,
        )
    }

    /// Issues an authorization code at the present time.
    pub fn create_authorization_code(&self, client_id: String, user_id: u128) -> (result: Result<
        String,
        InternalError,
    >)
        ensures
            exists|now: u64|
                issues(
                    result,
                    self.secret(),
                    #[trigger] issued_claims(
                        JwtType::AuthorizationCode,
                        client_id@,
                        user_id,
                        AUTHORIZATION_CODE_LIFETIME,
                        now,
                    ),
                ),
    {
        let now: u64 = current_timestamp();
        self.create_authorization_code_at(client_id, user_id, now)
    }

    /// Authenticates the client that was looked up for a redemption: an
    /// unknown client and a wrong secret fail alike.
    pub fn authenticate<'a>(&self, client: Option<&'a Client>, client_secret: &str) -> (result:
        Result<&'a Client, AccessTokenError>)
        ensures
            match client {
                None => result matches Err(error) && error.failure()
                    == GrantFailure::ClientAuthenticationFailed,
                Some(known) => match authentication(
                    true,
                    argon2_verdict(client_secret@, known.client_secret@),
                ) {
                    Ok(_) => result matches Ok(same) && same == known,
                    Err(failure) => result matches Err(error) && error.failure() == failure,
                },
            },
    {
        match client {
            None => Err(AccessTokenError::ClientAuthenticationFailed),
            Some(known) => match known.is_secret_match(client_secret) {
                Err(error) => Err(AccessTokenError::from(error)),
                Ok(false) => Err(AccessTokenError::ClientAuthenticationFailed),
                Ok(true) => Ok(known),
            },
        }
    }

    /// Redeems a code at the time `now`, up to the point where the store has
    /// to consume it. `client` is what the lookup of `client_id` gave. On
    /// success the caller hands the pending grant's request to the store and
    /// the store's answer to `grant_at`; on failure nothing is to be done, so
    /// a refused redemption never consumes a code.
    pub fn access_token_at(&self, token_params: &TokenParams, client: Option<&Client>, now: u64) -> (result:
        Result<PendingGrant, AccessTokenError>)
        ensures
            redeems(
                result,
                redemption(
                    client is Some,
                    argon2_verdict(token_params.client_secret@, client.unwrap().client_secret@),
                    verified(self.secret(), token_params.code@, now),
                    client.unwrap().redirect_uri@,
                    token_params.grant_type@,
                    token_params.client_id@,
                    token_params.redirect_uri@,
                ),
                token_params,
            ),
    {
        let client = match self.authenticate(client, token_params.client_secret.as_str()) {
            Err(error) => {
                return Err(error);
            },
            Ok(client) => client,
        };
        let claims = match self.token_service.verify_any_at(token_params.code.as_str(), now) {
            Err(error) => {
                return Err(AccessTokenError::from(error));
            },
            Ok(claims) => claims,
        };
        if !same_text(token_params.grant_type.as_str(), "authorization_code") {
            return Err(AccessTokenError::UnsupportedGrantType);
        }
        self.authorization_code_flow(&claims, client, token_params)
    }

    /// Redeems a code at the present time, up to the point where the store has
    /// to consume it.
    pub fn access_token(&self, token_params: &TokenParams, client: Option<&Client>) -> (result:
        Result<PendingGrant, AccessTokenError>)
        ensures
            exists|now: u64|
                redeems(
                    result,
                    redemption(
                        client is Some,
                        argon2_verdict(
                            token_params.client_secret@,
                            client.unwrap().client_secret@,
                        ),
                        #[trigger] verified(self.secret(), token_params.code@, now),
                        client.unwrap().redirect_uri@,
                        token_params.grant_type@,
                        token_params.client_id@,
                        token_params.redirect_uri@,
                    ),
                    token_params,
                ),
    {
        let now: u64 = current_timestamp();
        self.access_token_at(token_params, client, now)
    }

    /// Checks verified claims against the client that redeems them, and
    /// names the request that consumes the code.
    pub fn authorization_code_flow(
        &self,
        claims: &Claims,
        client: &Client,
        token_params: &TokenParams,
    ) -> (result: Result<PendingGrant, AccessTokenError>)
        ensures
            match code_checks(
                claims@,
                client.redirect_uri@,
                token_params.client_id@,
                token_params.redirect_uri@,
            ) {
                Err(failure) => result matches Err(error) && error.failure() == failure,
                Ok(_) => result matches Ok(pending) && pending@ == (PendingGrantView {
                    request: consumption(token_params.code@),
                    client_id: token_params.client_id@,
                    subject: claims.sub,
                }),
            },
    {
        if claims.jwt_type != JwtType::AuthorizationCode {
            return Err(AccessTokenError::TokenTypeMismatch);
        }
        if !same_text(claims.aud.as_str(), token_params.client_id.as_str()) {
            return Err(AccessTokenError::TokenAudienceMismatch);
        }
        if !same_text(token_params.redirect_uri.as_str(), client.redirect_uri.as_str()) {
            return Err(AccessTokenError::RedirectUriMismatch);
        }
        let request = self.token_service.mark_authorization_code_as_used(
            token_params.code.as_str(),
        );
        Ok(
            PendingGrant {
                request,
                client_id: token_params.client_id.clone(),
                subject: claims.sub,
            },
        )
    }

    /// Ends a redemption at the time `now`, given what the store answered to
    /// the pending grant's request: a code that was consumed before is
    /// refused, a code consumed by this request buys an access token for the
    /// client and the code's subject, good for sixty minutes.
    pub fn grant_at(&self, pending: PendingGrant, marked: Result<bool, InternalError>, now: u64) -> (result:
        Result<AccessToken, AccessTokenError>)
        requires
            now + ACCESS_TOKEN_LIFETIME <= u64::MAX,
        ensures
            grants(
                result,
                marked,
                self.secret(),
                issued_claims(
                    JwtType::AccessToken,
                    pending.client_id@,
                    pending.subject,
                    ACCESS_TOKEN_LIFETIME,
                    now,
                ),
            ),
    {
        match marked {
            Err(error) => Err(AccessTokenError::InternalError(error)),
            Ok(false) => Err(AccessTokenError::AuthorizationCodeUsed),
            Ok(true) => {
                match self.token_service.create_access_token_at(
                    pending.client_id,
                    pending.subject,
                    ACCESS_TOKEN_LIFETIME,
                    now,
                ) {
                    Err(error) => Err(AccessTokenError::InternalError(error)),
                    Ok(token) => Ok(
                        AccessToken {
                            access_token: token,
                            token_type: "Bearer",
                            expires_in: ACCESS_TOKEN_LIFETIME,
                            refresh_token: None,
                            scope: None,
                        },
                    ),
                }
            },
        }
    }

    /// Redeems a code against a store in memory at the time `now`, from the
    /// first check to the access token. A redemption that fails a check
    /// leaves the store as it was: it never consumes a code.
    pub fn redeem_at(
        &self,
        store: &mut MemoryKvs,
        token_params: &TokenParams,
        client: Option<&Client>,
        now: u64,
    ) -> (result: Result<AccessToken, AccessTokenError>)
        requires
            old(store).well_formed(),
            now + ACCESS_TOKEN_LIFETIME <= u64::MAX,
        ensures
            final(store).well_formed(),
            match redemption(
                client is Some,
                argon2_verdict(token_params.client_secret@, client.unwrap().client_secret@),
                verified(self.secret(), token_params.code@, now),
                client.unwrap().redirect_uri@,
                token_params.grant_type@,
                token_params.client_id@,
                token_params.redirect_uri@,
            ) {
                Err(failure) => final(store)@ == old(store)@ && (result matches Err(error)
                    && error.failure() == failure),
                Ok(subject) => final(store)@ == after(
                    old(store)@,
                    consumption(token_params.code@),
                    now as int,
                ) && grants(
                    result,
                    Ok(answer(old(store)@, consumption(token_params.code@), now as int)),
                    self.secret(),
                    issued_claims(
                        JwtType::AccessToken,
                        token_params.client_id@,
                        subject,
                        ACCESS_TOKEN_LIFETIME,
                        now,
                    ),
                ),
            },
    {
        match self.access_token_at(token_params, client, now) {
            Err(error) => Err(error),
            Ok(pending) => {
                let reply = store.set_if_absent(&pending.request, now);
                self.grant_at(pending, Ok(created(&reply)), now)
            },
        }
    }

    /// Ends a redemption at the present time.
    pub fn grant(&self, pending: PendingGrant, marked: Result<bool, InternalError>) -> (result:
        Result<AccessToken, AccessTokenError>)
        ensures
            exists|now: u64|
                grants(
                    result,
                    marked,
                    self.secret(),
                    #[trigger] issued_claims(
                        JwtType::AccessToken,
                        pending.client_id@,
                        pending.subject,
                        ACCESS_TOKEN_LIFETIME,
                        now,
                    ),
                ),
    {
        let now: u64 = current_timestamp();
        self.grant_at(pending, marked, now)
    }
}

} // verus!
