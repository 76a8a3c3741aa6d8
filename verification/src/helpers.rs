use crate::services::oauth2::{OauthErrorResponse, OauthErrorResponseView};
use vstd::prelude::*;
use vstd::string::{StrSliceExecFns, StringExecFns};

verus! {

/// What is sent back over HTTP: a status and a body.
#[derive(Debug)]
pub struct Response {
    pub status: u16,
    pub body: Body,
}

/// The body of a response: plain text, or an OAuth2 error object.
#[derive(Debug)]
pub enum Body {
    Text(String),
    OauthError(OauthErrorResponse),
    /// No content but the place to go to next.
    Redirect(String),
}

/// A body as plain mathematical values.
pub enum BodyView {
    Text(Seq<char>),
    OauthError(OauthErrorResponseView),
    Redirect(Seq<char>),
}

/// A response as plain mathematical values.
pub struct ResponseView {
    pub status: u16,
    pub body: BodyView,
}

impl View for Body {
    type V = BodyView;

    open spec fn view(&self) -> BodyView {
        match self {
            Body::Text(text) => BodyView::Text(text@),
            Body::OauthError(error) => BodyView::OauthError(error@),
            Body::Redirect(location) => BodyView::Redirect(location@),
        }
    }
}

impl View for Response {
    type V = ResponseView;

    open spec fn view(&self) -> ResponseView {
        ResponseView { status: self.status, body: self.body@ }
    }
}

/// A response of plain text.
pub open spec fn text_response(status: u16, text: Seq<char>) -> ResponseView {
    ResponseView { status, body: BodyView::Text(text) }
}

/// A redirection to `location`, with the status 303.
pub open spec fn redirect_response(location: Seq<char>) -> ResponseView {
    ResponseView { status: 303, body: BodyView::Redirect(location) }
}

/// What adding the query pair `name=value` to the URL `base` gives: the new
/// URL, or the reason why `base` is no absolute URL.
pub uninterp spec fn url_with_param(base: Seq<char>, name: Seq<char>, value: Seq<char>) -> Result<
    Seq<char>,
    Seq<char>,
>;

/// `url::Url::parse_with_params` with one pair, and the URL's text: the URL
/// `base` with `name=value` added to its query, or the parser's message.
#[verifier::external_body]
pub(crate) fn url_add_param(base: &str, name: &str, value: &str) -> (url: Result<String, String>)
    ensures
        match url {
            Ok(text) => url_with_param(base@, name@, value@) matches Ok(expected) && expected
                == text@,
            Err(message) => url_with_param(base@, name@, value@) matches Err(expected)
                && expected == message@,
        },
{
    match url::Url::parse_with_params(base, [(name, value)]) {
        Ok(url) => Ok(url.to_string()),
        Err(error) => Err(error.to_string()),
    }
}

impl Response {
    /// A redirection to `location`, with the status 303.
    pub fn redirect(location: String) -> (response: Response)
        ensures
            response@ == redirect_response(location@),
    {
        Response { status: 303, body: Body::Redirect(location) }
    }

    /// A response of plain text.
    pub fn text(status: u16, text: &str) -> (response: Response)
        ensures
            response@ == text_response(status, text@),
    {
        Response { status, body: Body::Text(text.to_owned()) }
    }
}

/// Whatever can be sent back over HTTP.
pub trait IntoResponse: Sized {
    /// The response that a value stands for.
    spec fn response(&self) -> ResponseView;

    fn into_response(self) -> (response: Response)
        ensures
            response@ == self.response(),
    ;
}

impl IntoResponse for Response {
    open spec fn response(&self) -> ResponseView {
        self@
    }

    fn into_response(self) -> (response: Response) {
        self
    }
}

/// A request body that can judge itself before it is used.
pub trait Validatable {
    type Rejection;

    /// Whether the value may be used.
    spec fn valid(&self) -> bool;

    /// Whether `rejection` is the answer that an invalid value is owed.
    spec fn rejected_with(&self, rejection: Self::Rejection) -> bool;

    fn validate(&self) -> (result: Result<(), Self::Rejection>)
        ensures
            match result {
                Ok(_) => self.valid(),
                Err(rejection) => !self.valid() && self.rejected_with(rejection),
            },
    ;
}

/// Why a request body was turned away: it was read but found invalid, or it
/// could not be read at all.
pub enum ValidationRejection<T, V> {
    ValidationFailed(T),
    FromRequestRejection(V),
}

impl<T: IntoResponse, V: IntoResponse> IntoResponse for ValidationRejection<T, V> {
    open spec fn response(&self) -> ResponseView {
        match self {
            ValidationRejection::ValidationFailed(rejection) => rejection.response(),
            ValidationRejection::FromRequestRejection(rejection) => rejection.response(),
        }
    }

    fn into_response(self) -> (response: Response) {
        match self {
            ValidationRejection::ValidationFailed(rejection) => rejection.into_response(),
            ValidationRejection::FromRequestRejection(rejection) => rejection.into_response(),
        }
    }
}

/// A request body that has been read and found valid.
pub struct Validate<T>(pub T);

impl<T: Validatable> Validate<T> {
    /// Judges a body that was read from a request: a body that could not be
    /// read keeps its rejection, one that was read is validated.
    pub fn from_request<V>(extracted: Result<T, V>) -> (result: Result<
        Validate<T>,
        ValidationRejection<T::Rejection, V>,
    >)
        ensures
            match extracted {
                Err(unread) => result matches Err(ValidationRejection::FromRequestRejection(r))
                    && r == unread,
                Ok(body) => if body.valid() {
                    result matches Ok(valid) && valid.0 == body
                } else {
                    result matches Err(ValidationRejection::ValidationFailed(r))
                        && body.rejected_with(r)
                },
            },
    {
        match extracted {
            Err(unread) => Err(ValidationRejection::FromRequestRejection(unread)),
            Ok(body) => match body.validate() {
                Ok(_) => Ok(Validate(body)),
                Err(rejection) => Err(ValidationRejection::ValidationFailed(rejection)),
            },
        }
    }
}

/// Marks an error whose conversion is chosen by hand, so that no blanket
/// conversion applies to it.
pub struct ManualErrorHandling<T>(pub T);

impl<T> ManualErrorHandling<T> {
    pub fn into_inner(self) -> (inner: T)
        ensures
            inner == self.0,
    {
        self.0
    }
}

/// Wraps the error of a result in `ManualErrorHandling`.
pub trait ManualErrorHandle {
    type Value;

    type Error;

    /// The result with its error wrapped.
    spec fn wrapped(self) -> Result<Self::Value, ManualErrorHandling<Self::Error>>;

    fn manual_error_handling(self) -> (result: Result<
        Self::Value,
        ManualErrorHandling<Self::Error>,
    >)
        ensures
            result == self.wrapped(),
    ;
}

impl<T, E> ManualErrorHandle for Result<T, E> {
    type Value = T;

    type Error = E;

    open spec fn wrapped(self) -> Result<T, ManualErrorHandling<E>> {
        match self {
            Ok(value) => Ok(value),
            Err(error) => Err(ManualErrorHandling(error)),
        }
    }

    fn manual_error_handling(self) -> (result: Result<T, ManualErrorHandling<E>>) {
        match self {
            Ok(value) => Ok(value),
            Err(error) => Err(ManualErrorHandling(error)),
        }
    }
}

/// A failure of a collaborator that the caller cannot mend: each variant
/// names where it arose and carries that collaborator's message.
#[derive(Debug)]
pub enum InternalError {
    ConnectionPool(String),
    Database(String),
    PasswordHash(String),
    Jwt(String),
    R2d2(String),
    Redis(String),
    Lettre(String),
    LettreSmtp(String),
}

/// An internal error as plain mathematical values: where it arose, and the
/// collaborator's message.
pub enum InternalErrorView {
    ConnectionPool(Seq<char>),
    Database(Seq<char>),
    PasswordHash(Seq<char>),
    Jwt(Seq<char>),
    R2d2(Seq<char>),
    Redis(Seq<char>),
    Lettre(Seq<char>),
    LettreSmtp(Seq<char>),
}

impl View for InternalError {
    type V = InternalErrorView;

    open spec fn view(&self) -> InternalErrorView {
        match self {
            InternalError::ConnectionPool(message) => InternalErrorView::ConnectionPool(message@),
            InternalError::Database(message) => InternalErrorView::Database(message@),
            InternalError::PasswordHash(message) => InternalErrorView::PasswordHash(message@),
            InternalError::Jwt(message) => InternalErrorView::Jwt(message@),
            InternalError::R2d2(message) => InternalErrorView::R2d2(message@),
            InternalError::Redis(message) => InternalErrorView::Redis(message@),
            InternalError::Lettre(message) => InternalErrorView::Lettre(message@),
            InternalError::LettreSmtp(message) => InternalErrorView::LettreSmtp(message@),
        }
    }
}

impl InternalError {
    /// The words that introduce the collaborator's message.
    pub open spec fn prefix(&self) -> Seq<char> {
        match self {
            InternalError::ConnectionPool(_) => "connection pool error: "@,
            InternalError::Database(_) => "database error: "@,
            InternalError::PasswordHash(_) => "password hash error: "@,
            InternalError::Jwt(_) => "jwt error: "@,
            InternalError::R2d2(_) => "kvs pool error: "@,
            InternalError::Redis(_) => "redis error: "@,
            InternalError::Lettre(_) => "lettre error: "@,
            InternalError::LettreSmtp(_) => "lettre smtp error: "@,
        }
    }

    /// The collaborator's message.
    pub open spec fn detail(&self) -> Seq<char> {
        match self {
            InternalError::ConnectionPool(message) => message@,
            InternalError::Database(message) => message@,
            InternalError::PasswordHash(message) => message@,
            InternalError::Jwt(message) => message@,
            InternalError::R2d2(message) => message@,
            InternalError::Redis(message) => message@,
            InternalError::Lettre(message) => message@,
            InternalError::LettreSmtp(message) => message@,
        }
    }

    /// The error in words, for a log.
    pub fn to_string(&self) -> (text: String)
        ensures
            text@ == self.prefix() + self.detail(),
    {
        let (prefix, message) = match self {
            InternalError::ConnectionPool(message) => ("connection pool error: ", message),
            InternalError::Database(message) => ("database error: ", message),
            InternalError::PasswordHash(message) => ("password hash error: ", message),
            InternalError::Jwt(message) => ("jwt error: ", message),
            InternalError::R2d2(message) => ("kvs pool error: ", message),
            InternalError::Redis(message) => ("redis error: ", message),
            InternalError::Lettre(message) => ("lettre error: ", message),
            InternalError::LettreSmtp(message) => ("lettre smtp error: ", message),
        };
        let mut text = String::from_str(prefix);
        text.append(message.as_str());
        text
    }
}

impl IntoResponse for InternalError {
    /// An internal error shows the client nothing but the status 500.
    open spec fn response(&self) -> ResponseView {
        text_response(500, ""@)
    }

    fn into_response(self) -> (response: Response) {
        Response::text(500, "")
    }
}

/// The value of an `Authorization` header.
pub struct TokenHeader(String);

impl View for TokenHeader {
    type V = Seq<char>;

    closed spec fn view(&self) -> Seq<char> {
        self.0@
    }
}

/// The words before the token in an `Authorization` header.
pub open spec fn bearer_prefix() -> Seq<char> {
    "Bearer "@
}

/// Whether a header value begins with `Bearer `.
pub open spec fn is_bearer(header: Seq<char>) -> bool {
    header.len() >= 7 && header.subrange(0, 7) == bearer_prefix()
}

impl TokenHeader {
    pub fn new(value: String) -> (header: TokenHeader)
        ensures
            header@ == value@,
    {
        TokenHeader(value)
    }

    /// The token of a `Bearer` header: what follows the seven characters
    /// `Bearer `. Any other header is a bad request.
    pub fn to_bearer_token(&self) -> (result: Result<&str, Response>)
        ensures
            match result {
                Ok(token) => is_bearer(self@) && token@ == self@.subrange(7, self@.len() as int),
                Err(response) => !is_bearer(self@) && response@ == text_response(
                    400,
                    "invalid Authorization header"@,
                ),
            },
    {
        let header = self.0.as_str();
        let length: usize = header.unicode_len();
        if length < 7 {
            return Err(Response::text(400, "invalid Authorization header"));
        }
        let head = header.substring_char(0, 7);
        if !crate::text::same_text(head, "Bearer ") {
            return Err(Response::text(400, "invalid Authorization header"));
        }
        Ok(header.substring_char(7, length))
    }
}

} // verus!
