use crate::helpers::{
    text_response, url_add_param, url_with_param, InternalError, IntoResponse, Response,
    ResponseView,
};
use vstd::prelude::*;

verus! {

/// What is wrong with a mailbox address, if anything: the reason for which
/// `lettre` refuses it.
pub uninterp spec fn address_fault(address: Seq<char>) -> Option<Seq<char>>;

/// `lettre::Address::from_str`: `None` for an address that `lettre` accepts,
/// else its error's message.
#[verifier::external_body]
fn check_address(address: &str) -> (fault: Option<String>)
    ensures
        match fault {
            Some(message) => address_fault(address@) == Some(message@),
            None => address_fault(address@) is None,
        },
{
    match address.parse::<lettre::Address>() {
        Ok(_) => None,
        Err(error) => Some(error.to_string()),
    }
}

/// The subject line of every activation mail.
pub open spec fn activation_subject() -> Seq<char> {
    "Activation Link for agus.dev SSO"@
}

/// Writes the activation mails of the service.
#[derive(Debug)]
pub struct EmailService {
    pub base_url: String,
    pub sender_email: String,
    pub sender_name: Option<String>,
}

/// A mail ready to be sent as plain text.
#[derive(Debug)]
pub struct ActivationEmail {
    pub sender_name: Option<String>,
    pub sender_email: String,
    pub recipient_name: String,
    pub recipient_email: String,
    pub subject: String,
    pub body: String,
}

/// Why no activation mail was written or sent.
#[derive(Debug)]
pub enum ActivationEmailError {
    InvalidEmail(String),
    InternalError(InternalError),
}

impl From<InternalError> for ActivationEmailError {
    fn from(error: InternalError) -> (result: ActivationEmailError) {
        ActivationEmailError::InternalError(error)
    }
}

impl vstd::std_specs::convert::FromSpecImpl<InternalError> for ActivationEmailError {
    open spec fn obeys_from_spec() -> bool {
        true
    }

    open spec fn from_spec(error: InternalError) -> ActivationEmailError {
        ActivationEmailError::InternalError(error)
    }
}

impl IntoResponse for ActivationEmailError {
    open spec fn response(&self) -> ResponseView {
        match self {
            ActivationEmailError::InvalidEmail(_) => text_response(400, "invalid email address"@),
            ActivationEmailError::InternalError(_) => text_response(500, ""@),
        }
    }

    fn into_response(self) -> (response: Response) {
        match self {
            ActivationEmailError::InvalidEmail(_) => Response::text(400, "invalid email address"),
            ActivationEmailError::InternalError(error) => error.into_response(),
        }
    }
}

impl EmailService {
    /// A service that links to `base_url` and sends as `sender_email`.
    pub fn new(base_url: String, sender_email: String) -> (service: EmailService)
        ensures
            service.base_url == base_url,
            service.sender_email == sender_email,
            service.sender_name is None,
    {
        EmailService { base_url, sender_email, sender_name: None }
    }

    pub fn set_sender_name(self, name: String) -> (service: EmailService)
        ensures
            service.base_url == self.base_url,
            service.sender_email == self.sender_email,
            service.sender_name == Some(name),
    {
        EmailService {
            base_url: self.base_url,
            sender_email: self.sender_email,
            sender_name: Some(name),
        }
    }

    /// Writes the activation mail for `name` at `email`: its body is the
    /// base URL with `code=token` added to the query. A base URL that is no
    /// URL is an internal error; an address that is none is an invalid
    /// email, and is looked at second.
    pub fn send_activation_email(&self, name: String, email: &str, token: &str) -> (result: Result<
        ActivationEmail,
        ActivationEmailError,
    >)
        ensures
            match url_with_param(self.base_url@, "code"@, token@) {
                Err(reason) => result matches Err(
                    ActivationEmailError::InternalError(InternalError::Lettre(text)),
                ) && text@ == reason,
                Ok(link) => match address_fault(email@) {
                    Some(fault) => result matches Err(ActivationEmailError::InvalidEmail(text))
                        && text@ == fault,
                    None => result matches Ok(mail) && mail.body@ == link && mail.subject@
                        == activation_subject() && mail.recipient_email@ == email@
                        && mail.recipient_name == name && mail.sender_email == self.sender_email
                        && mail.sender_name == self.sender_name,
                },
            },
    {
        let link = match url_add_param(self.base_url.as_str(), "code", token) {
            Err(message) => {
                return Err(ActivationEmailError::from(InternalError::Lettre(message)));
            },
            Ok(link) => link,
        };
        match check_address(email) {
            Some(message) => Err(ActivationEmailError::InvalidEmail(message)),
            None => Ok(
                ActivationEmail {
                    sender_name: self.sender_name.clone(),
                    sender_email: self.sender_email.clone(),
                    recipient_name: name,
                    recipient_email: email.to_owned(),
                    subject: "Activation Link for agus.dev SSO".to_owned(),
                    body: link,
                },
            ),
        }
    }
}

} // verus!
