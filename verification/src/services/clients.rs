use crate::helpers::InternalError;
use crate::services::users::password::{verdict_is, verify_password};
use vstd::prelude::*;

verus! {

/// A registered OAuth2 client: the Argon2 hash of its secret and the one
/// redirect URI it may use.
#[derive(Debug)]
pub struct Client {
    pub client_secret: String,
    pub redirect_uri: String,
}

impl Client {
    /// Whether `secret` is the client's secret.
    pub fn is_secret_match(&self, secret: &str) -> (result: Result<bool, InternalError>)
        ensures
            verdict_is(result, secret@, self.client_secret@),
    {
        verify_password(secret, self.client_secret.as_str())
    }
}

} // verus!
