use crate::helpers::{
    redirect_response, text_response, url_add_param, url_with_param, IntoResponse, Response,
    ResponseView, Validatable,
};
use crate::kvs::{SetIfAbsent, SetIfAbsentView};
use crate::services::clients::Client;
use crate::services::oauth2::{Oauth2Service, AUTHORIZATION_CODE_LIFETIME};
use crate::services::rate_limit::RateLimitService;
use crate::services::tokens::jwt::{signed_token, JwtType};
use crate::services::tokens::issued_claims;
use crate::services::users::{LoginFailure, User, UserValidationError};
use crate::text::{byte_len, byte_length, same_text};
use vstd::prelude::*;
use vstd::string::StringExecFns;

verus! {

/// Whether `address` is an email address, as the `email_address` crate
/// judges it.
pub uninterp spec fn email_is_valid(address: Seq<char>) -> bool;

/// `email_address::EmailAddress::is_valid`.
#[verifier::external_body]
fn is_valid_email(address: &str) -> (valid: bool)
    ensures
        valid == email_is_valid(address@),
{
    email_address::EmailAddress::is_valid(address)
}

/// Seconds between two activation mails to one address.
pub const ACTIVATION_EMAIL_WINDOW: u64 = 60;

/// What a new user sends to register.
#[derive(Debug)]
pub struct RegisterForm {
    pub username: String,
    pub email: String,
    pub password: String,
}

/// What a user sends to log in on behalf of a client.
#[derive(Debug)]
pub struct LoginForm {
    pub username: String,
    pub password: String,
    pub client_id: String,
    pub redirect_uri: String,
}

/// What the profile endpoint shows of a user.
#[derive(Debug)]
pub struct Profile {
    pub username: String,
    pub email: String,
}

/// What is sent to ask for another activation mail.
#[derive(Debug)]
pub struct ActivateForm {
    pub email: String,
}

/// What is sent to activate an account.
#[derive(Debug)]
pub struct ActivateQuery {
    pub code: String,
}

/// What is wrong with a registration, if anything: the username must have 3
/// to 32 bytes, the email must be an address, and the password must have 8
/// to 32 bytes. The first fault found is reported.
pub open spec fn registration_fault(
    username: Seq<char>,
    email: Seq<char>,
    password: Seq<char>,
) -> Option<Seq<char>> {
    if byte_length(username) < 3 || byte_length(username) > 32 {
        Some("username must be between 3 and 32 characters"@)
    } else if !email_is_valid(email) {
        Some("invalid email address"@)
    } else if byte_length(password) < 8 || byte_length(password) > 32 {
        Some("password must be between 8 and 32 characters"@)
    } else {
        None
    }
}

impl Validatable for RegisterForm {
    type Rejection = Response;

    open spec fn valid(&self) -> bool {
        registration_fault(self.username@, self.email@, self.password@) is None
    }

    open spec fn rejected_with(&self, rejection: Response) -> bool {
        registration_fault(self.username@, self.email@, self.password@) matches Some(fault)
            && rejection@ == text_response(400, fault)
    }

    fn validate(&self) -> (result: Result<(), Response>) {
        let username: usize = byte_len(self.username.as_str());
        if username < 3 || username > 32 {
            return Err(Response::text(400, "username must be between 3 and 32 characters"));
        }
        if !is_valid_email(self.email.as_str()) {
            return Err(Response::text(400, "invalid email address"));
        }
        let password: usize = byte_len(self.password.as_str());
        if password < 8 || password > 32 {
            return Err(Response::text(400, "password must be between 8 and 32 characters"));
        }
        Ok(())
    }
}

/// Where a failed login is sent back to: the login page, with the error and
/// the client's parameters in the query.
pub open spec fn login_uri(error: Seq<char>, client_id: Seq<char>, redirect_uri: Seq<char>) -> Seq<
    char,
> {
    "/oauth2/login?error="@ + error + "&client_id="@ + client_id + "&redirect_uri="@
        + redirect_uri
}

/// What a login for a client is answered before the user is looked at: the
/// client must be registered and the redirect URI must be its own.
pub open spec fn client_fault(
    registered: bool,
    registered_redirect: Seq<char>,
    redirect_uri: Seq<char>,
) -> Option<ResponseView> {
    if !registered {
        Some(text_response(400, "client_id is invalid"@))
    } else if redirect_uri != registered_redirect {
        Some(text_response(400, "redirect_uri mismatch"@))
    } else {
        None
    }
}

/// What a refused login is answered: wrong credentials and an account that
/// is not activated go back to the login page, each with its error; an
/// unknown user and a wrong password are not told apart.
pub open spec fn refusal_response(
    failure: LoginFailure,
    client_id: Seq<char>,
    redirect_uri: Seq<char>,
) -> ResponseView {
    match failure {
        LoginFailure::UserNotFound => redirect_response(
            login_uri("invalid_credentials"@, client_id, redirect_uri),
        ),
        LoginFailure::InvalidPassword => redirect_response(
            login_uri("invalid_credentials"@, client_id, redirect_uri),
        ),
        LoginFailure::NotActivated => redirect_response(
            login_uri("not_activated"@, client_id, redirect_uri),
        ),
        LoginFailure::InternalError(_) => text_response(500, ""@),
    }
}

/// What a login is answered once the code is issued: a redirection to the
/// client's URI with the code in its query, or a bad request where that URI
/// is no URL.
pub open spec fn code_response(redirect_uri: Seq<char>, code: Seq<char>) -> Result<
    ResponseView,
    ResponseView,
> {
    match url_with_param(redirect_uri, "code"@, code) {
        Ok(location) => Ok(redirect_response(location)),
        Err(reason) => Err(text_response(400, "invalid redirect url: "@ + reason)),
    }
}

/// Whether `result` is what `expected` says, responses by their view.
pub open spec fn answers_with(
    result: Result<Response, Response>,
    expected: Result<ResponseView, ResponseView>,
) -> bool {
    match result {
        Ok(response) => expected == Ok::<ResponseView, ResponseView>(response@),
        Err(response) => expected == Err::<ResponseView, ResponseView>(response@),
    }
}

/// The login page's address for a failed login.
pub fn login_page(error: &str, form: &LoginForm) -> (uri: String)
    ensures
        uri@ == login_uri(error@, form.client_id@, form.redirect_uri@),
{
    let mut uri = String::from_str("/oauth2/login?error=");
    uri.append(error);
    uri.append("&client_id=");
    uri.append(form.client_id.as_str());
    uri.append("&redirect_uri=");
    uri.append(form.redirect_uri.as_str());
    uri
}

/// Checks the client of a login, given what the lookup of its id gave.
pub fn login_client(client: Option<&Client>, form: &LoginForm) -> (result: Result<(), Response>)
    ensures
        match client_fault(client is Some, client.unwrap().redirect_uri@, form.redirect_uri@) {
            Some(fault) => result matches Err(response) && response@ == fault,
            None => result is Ok,
        },
{
    match client {
        None => Err(Response::text(400, "client_id is invalid")),
        Some(client) => {
            if !same_text(form.redirect_uri.as_str(), client.redirect_uri.as_str()) {
                Err(Response::text(400, "redirect_uri mismatch"))
            } else {
                Ok(())
            }
        },
    }
}

/// Answers a refused login.
pub fn login_refusal(error: &UserValidationError, form: &LoginForm) -> (response: Response)
    ensures
        response@ == refusal_response(error.failure(), form.client_id@, form.redirect_uri@),
{
    match error {
        UserValidationError::UserNotFound => Response::redirect(
            login_page("invalid_credentials", form),
        ),
        UserValidationError::InvalidPassword => Response::redirect(
            login_page("invalid_credentials", form),
        ),
        UserValidationError::NotActivated => Response::redirect(login_page("not_activated", form)),
        UserValidationError::InternalError(_) => Response::text(500, ""),
    }
}

/// Answers a login whose code was issued.
pub fn login_redirect(form: &LoginForm, auth_code: &str) -> (result: Result<Response, Response>)
    ensures
        answers_with(result, code_response(form.redirect_uri@, auth_code@)),
{
    match url_add_param(form.redirect_uri.as_str(), "code", auth_code) {
        Ok(location) => Ok(Response::redirect(location)),
        Err(reason) => {
            let mut text = String::from_str("invalid redirect url: ");
            text.append(reason.as_str());
            Err(Response::text(400, text.as_str()))
        },
    }
}

/// Decides a login at the time `now`, given the client that the lookup of
/// `client_id` gave and what the check of the user's credentials said. The
/// client is judged first, then the user; a code is issued only for a user
/// who may log in: the code of that client and user, good for five minutes,
/// which goes to the client's redirect URI.
pub fn login_at(
    oauth2: &Oauth2Service,
    form: &LoginForm,
    client: Option<&Client>,
    user: Result<User, UserValidationError>,
    now: u64,
) -> (result: Result<Response, Response>)
    requires
        now + AUTHORIZATION_CODE_LIFETIME <= u64::MAX,
    ensures
        match client_fault(client is Some, client.unwrap().redirect_uri@, form.redirect_uri@) {
            Some(fault) => result matches Err(response) && response@ == fault,
            None => match user {
                Err(error) => result matches Err(response) && response@ == refusal_response(
                    error.failure(),
                    form.client_id@,
                    form.redirect_uri@,
                ),
                Ok(known) => answers_with(
                    result,
                    code_response(
                        form.redirect_uri@,
                        signed_token(
                            oauth2.secret(),
                            issued_claims(
                                JwtType::AuthorizationCode,
                                form.client_id@,
                                known.id,
                                AUTHORIZATION_CODE_LIFETIME,
                                now,
                            ),
                        ),
                    ),
                ),
            },
        },
{
    match login_client(client, form) {
        Err(response) => {
            return Err(response);
        },
        Ok(_) => {},
    }
    let known = match user {
        Err(error) => {
            return Err(login_refusal(&error, form));
        },
        Ok(known) => known,
    };
    match oauth2.create_authorization_code_at(form.client_id.clone(), known.id, now) {
        Err(error) => Err(error.into_response()),
        Ok(code) => login_redirect(form, code.as_str()),
    }
}

/// What the profile endpoint answers for the user that the subject of an
/// access token names: the user's name and address, or 401 where there is
/// no such user.
pub fn profile(user: Option<User>) -> (result: Result<Profile, Response>)
    ensures
        match user {
            Some(known) => result matches Ok(shown) && shown.username == known.username
                && shown.email == known.email,
            None => result matches Err(response) && response@ == text_response(
                401,
                "user not found"@,
            ),
        },
{
    match user {
        Some(known) => Ok(Profile { username: known.username, email: known.email }),
        None => Err(Response::text(401, "user not found")),
    }
}

/// The key under which requests for an activation mail to `email` are
/// counted.
pub open spec fn activation_key(email: Seq<char>) -> Seq<char> {
    "activation_email:"@ + email
}

/// The request that admits one activation mail per address and minute.
pub fn activation_rate_limit(limiter: &RateLimitService, form: &ActivateForm) -> (request:
    SetIfAbsent)
    ensures
        request@ == (SetIfAbsentView {
            key: activation_key(form.email@),
            value: activation_key(form.email@),
            ttl: ACTIVATION_EMAIL_WINDOW,
        }),
{
    let mut key = String::from_str("activation_email:");
    key.append(form.email.as_str());
    limiter.check_rate_limit(key.as_str(), ACTIVATION_EMAIL_WINDOW)
}

/// Decides a request for another activation mail: outside the rate it is
/// answered 429; within it, a mail goes to the user if there is one who is
/// not activated yet, and nothing tells the asker whether there was.
pub fn send_activation_email(within_rate: bool, user: Option<User>) -> (result: Result<
    Option<User>,
    Response,
>)
    ensures
        if !within_rate {
            result matches Err(response) && response@ == text_response(429, ""@)
        } else {
            match user {
                Some(known) => if known.activated_at is Some {
                    result matches Ok(None)
                } else {
                    result matches Ok(Some(recipient)) && recipient == known
                },
                None => result matches Ok(None),
            }
        },
{
    if !within_rate {
        return Err(Response::text(429, ""));
    }
    match user {
        None => Ok(None),
        Some(known) => {
            if known.activated_at.is_some() {
                Ok(None)
            } else {
                Ok(Some(known))
            }
        },
    }
}

} // verus!
