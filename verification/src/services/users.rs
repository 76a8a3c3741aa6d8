pub mod password;

use crate::helpers::{
    text_response, InternalError, InternalErrorView, IntoResponse, ManualErrorHandling, Response,
    ResponseView,
};
use crate::services::users::password::{accepts, argon2_verdict, hash_password, verify_password};
use crate::text::same_text;
use vstd::prelude::*;

verus! {

/// A registered user. `activated_at` is the second at which the account was
/// activated, if it was.
#[derive(Debug)]
pub struct User {
    pub id: u128,
    pub username: String,
    pub email: String,
    pub password: String,
    pub activated_at: Option<i64>,
}

/// A user to be stored: the password is already hashed.
#[derive(Debug)]
pub struct NewUser {
    pub username: String,
    pub email: String,
    pub password: String,
}

impl NewUser {
    pub fn new(username: String, email: String, password: String) -> (user: NewUser)
        ensures
            user.username == username,
            user.email == email,
            user.password == password,
    {
        NewUser { username, email, password }
    }
}

/// What the database says of a statement that failed: the constraint that
/// was violated, if that was the reason, and its message.
#[derive(Debug)]
pub struct DatabaseFailure {
    pub constraint: Option<String>,
    pub message: String,
}

/// Why a registration failed.
#[derive(Debug)]
pub enum RegisterError {
    UsernameTaken,
    EmailTaken,
    InternalError(InternalError),
}

/// Why a login was refused.
#[derive(Debug)]
pub enum UserValidationError {
    UserNotFound,
    InvalidPassword,
    NotActivated,
    InternalError(InternalError),
}

/// Why a login was refused, as plain mathematical values.
pub enum LoginFailure {
    UserNotFound,
    InvalidPassword,
    NotActivated,
    InternalError(InternalErrorView),
}

impl UserValidationError {
    /// The error as plain mathematical values.
    pub open spec fn failure(&self) -> LoginFailure {
        match self {
            UserValidationError::UserNotFound => LoginFailure::UserNotFound,
            UserValidationError::InvalidPassword => LoginFailure::InvalidPassword,
            UserValidationError::NotActivated => LoginFailure::NotActivated,
            UserValidationError::InternalError(error) => LoginFailure::InternalError(error@),
        }
    }
}

/// The constraint that keeps usernames unique.
pub open spec fn unique_username() -> Seq<char> {
    "unique_username"@
}

/// The constraint that keeps email addresses unique.
pub open spec fn unique_email() -> Seq<char> {
    "unique_email"@
}

/// What a failed insertion means: a violated uniqueness constraint says
/// which name is taken, anything else is an internal error with the
/// database's message.
pub open spec fn insertion_failure(failure: DatabaseFailure) -> RegisterError {
    match failure.constraint {
        Some(name) => if name@ == unique_username() {
            RegisterError::UsernameTaken
        } else if name@ == unique_email() {
            RegisterError::EmailTaken
        } else {
            RegisterError::InternalError(InternalError::Database(failure.message))
        },
        None => RegisterError::InternalError(InternalError::Database(failure.message)),
    }
}

impl From<ManualErrorHandling<DatabaseFailure>> for RegisterError {
    fn from(error: ManualErrorHandling<DatabaseFailure>) -> (result: RegisterError) {
        let failure = error.into_inner();
        match failure.constraint {
            Some(name) => {
                if same_text(name.as_str(), "unique_username") {
                    RegisterError::UsernameTaken
                } else if same_text(name.as_str(), "unique_email") {
                    RegisterError::EmailTaken
                } else {
                    RegisterError::InternalError(InternalError::Database(failure.message))
                }
            },
            None => RegisterError::InternalError(InternalError::Database(failure.message)),
        }
    }
}

impl vstd::std_specs::convert::FromSpecImpl<ManualErrorHandling<DatabaseFailure>> for RegisterError {
    open spec fn obeys_from_spec() -> bool {
        true
    }

    open spec fn from_spec(error: ManualErrorHandling<DatabaseFailure>) -> RegisterError {
        insertion_failure(error.0)
    }
}

impl From<InternalError> for RegisterError {
    fn from(error: InternalError) -> (result: RegisterError) {
        RegisterError::InternalError(error)
    }
}

impl vstd::std_specs::convert::FromSpecImpl<InternalError> for RegisterError {
    open spec fn obeys_from_spec() -> bool {
        true
    }

    open spec fn from_spec(error: InternalError) -> RegisterError {
        RegisterError::InternalError(error)
    }
}

impl From<InternalError> for UserValidationError {
    fn from(error: InternalError) -> (result: UserValidationError) {
        UserValidationError::InternalError(error)
    }
}

impl vstd::std_specs::convert::FromSpecImpl<InternalError> for UserValidationError {
    open spec fn obeys_from_spec() -> bool {
        true
    }

    open spec fn from_spec(error: InternalError) -> UserValidationError {
        UserValidationError::InternalError(error)
    }
}

impl IntoResponse for RegisterError {
    open spec fn response(&self) -> ResponseView {
        match self {
            RegisterError::UsernameTaken => text_response(409, "username already taken"@),
            RegisterError::EmailTaken => text_response(409, "email already taken"@),
            RegisterError::InternalError(_) => text_response(500, ""@),
        }
    }

    fn into_response(self) -> (response: Response) {
        match self {
            RegisterError::UsernameTaken => Response::text(409, "username already taken"),
            RegisterError::EmailTaken => Response::text(409, "email already taken"),
            RegisterError::InternalError(error) => error.into_response(),
        }
    }
}

/// The rules of a login, in their order: the user must exist, the password
/// must be theirs, and the account must be activated. A stored hash that
/// cannot be read is an internal error with the hasher's message.
pub open spec fn login_outcome(
    found: bool,
    verdict: Result<bool, Seq<char>>,
    activated: bool,
) -> Result<(), LoginFailure> {
    if !found {
        Err(LoginFailure::UserNotFound)
    } else {
        match verdict {
            Err(message) => Err(
                LoginFailure::InternalError(InternalErrorView::PasswordHash(message)),
            ),
            Ok(false) => Err(LoginFailure::InvalidPassword),
            Ok(true) => if activated {
                Ok(())
            } else {
                Err(LoginFailure::NotActivated)
            },
        }
    }
}

/// The rules about users: who may log in, and what is stored of a new one.
pub struct UserService {}

impl UserService {
    pub fn new() -> UserService {
        UserService {  }
    }

    /// Prepares a registration: the user to store, with the password hashed.
    /// The stored hash verifies against `password`.
    pub fn register(&self, username: String, email: String, password: String) -> (result: Result<
        NewUser,
        RegisterError,
    >)
        ensures
            match result {
                Ok(user) => user.username == username && user.email == email && accepts(
                    password@,
                    user.password@,
                ),
                Err(error) => error matches RegisterError::InternalError(
                    InternalError::PasswordHash(_),
                ),
            },
    {
        match hash_password(password.as_str()) {
            Ok(hash) => Ok(NewUser::new(username, email, hash)),
            Err(error) => Err(RegisterError::from(error)),
        }
    }

    /// Decides a login, given the user that the lookup of the username gave.
    pub fn validate_and_return(&self, user: Option<User>, password: &str) -> (result: Result<
        User,
        UserValidationError,
    >)
        ensures
            match login_outcome(
                user is Some,
                argon2_verdict(password@, user.unwrap().password@),
                user.unwrap().activated_at is Some,
            ) {
                Ok(_) => result matches Ok(same) && Some(same) == user,
                Err(failure) => result matches Err(error) && error.failure() == failure,
            },
    {
        match user {
            None => Err(UserValidationError::UserNotFound),
            Some(user) => match verify_password(password, user.password.as_str()) {
                Err(error) => Err(UserValidationError::from(error)),
                Ok(false) => Err(UserValidationError::InvalidPassword),
                Ok(true) => {
                    if user.activated_at.is_none() {
                        Err(UserValidationError::NotActivated)
                    } else {
                        Ok(user)
                    }
                },
            },
        }
    }
}

} // verus!
