pub mod jwt;

use crate::helpers::InternalError;
use crate::kvs::{after, answer, created, MemoryKvs, SetIfAbsent, SetIfAbsentView};
use crate::services::tokens::jwt::{
    agrees, issuer, issuer_name, of_kind, signs, token_claims, verified, Claims, ClaimsView, JwtSigner,
    JwtType, JwtVerifyError, current_timestamp,
};
use vstd::prelude::*;
use vstd::string::StringExecFns;

verus! {

/// The secret that signs every token of this service.
pub struct JwtSecret<'a>(pub &'a [u8]);

/// Seconds for which a consumed authorization code stays marked.
pub const USED_CODE_TTL: u64 = 300;

/// Seconds for which an activation code is good.
pub const ACTIVATION_CODE_LIFETIME: u64 = 900;

/// Issues the three kinds of token and verifies them.
pub struct TokenService {
    jwt_signer: JwtSigner,
}

/// The key under which the store marks `code` as consumed.
pub open spec fn used_code_key(code: Seq<char>) -> Seq<char> {
    "authorization_token:"@ + code
}

/// The claims of a token of kind `jwt_type` for `aud` and `sub`, issued at
/// `now` and good for `lifetime` seconds.
pub open spec fn issued_claims(
    jwt_type: JwtType,
    aud: Seq<char>,
    sub: u128,
    lifetime: u64,
    now: u64,
) -> ClaimsView {
    ClaimsView { jwt_type, aud, exp: (now + lifetime) as u64, iat: now, iss: issuer_name(), sub }
}

/// What issuing owes on every input: the token of `claims` under `secret`,
/// which carries exactly these claims.
pub open spec fn issues(
    result: Result<String, InternalError>,
    secret: Seq<u8>,
    claims: ClaimsView,
) -> bool {
    signs(result, secret, claims)
}

/// A freshly issued token verifies, until it expires, to the kind, the
/// audience and the subject it was issued for.
pub proof fn lemma_fresh_token_verifies(
    secret: Seq<u8>,
    token: Seq<char>,
    jwt_type: JwtType,
    aud: Seq<char>,
    sub: u128,
    expiry: u64,
    issued: u64,
    now: u64,
)
    requires
        token_claims(secret, token) == Some(issued_claims(jwt_type, aud, sub, expiry, issued)),
        issued + expiry <= u64::MAX,
        now < issued + expiry,
    ensures
        verified(secret, token, now) matches Ok(claims) && claims.jwt_type == jwt_type
            && claims.aud == aud && claims.sub == sub,
        of_kind(verified(secret, token, now), jwt_type) == verified(secret, token, now),
{
}

/// A freshly issued authorization code verifies, until it expires, as an
/// authorization code whose audience is the client it was issued to.
pub proof fn lemma_fresh_code_verifies(
    secret: Seq<u8>,
    token: Seq<char>,
    client_id: Seq<char>,
    user_id: u128,
    expiry: u64,
    issued: u64,
    now: u64,
)
    requires
        token_claims(secret, token) == Some(
            issued_claims(JwtType::AuthorizationCode, client_id, user_id, expiry, issued),
        ),
        issued + expiry <= u64::MAX,
        now < issued + expiry,
    ensures
        verified(secret, token, now) matches Ok(claims) && claims.jwt_type
            == JwtType::AuthorizationCode && claims.aud == client_id,
{
}

impl TokenService {
    /// The secret that signs and verifies.
    pub closed spec fn secret(&self) -> Seq<u8> {
        self.jwt_signer.secret()
    }

    pub fn new(secret: JwtSecret) -> (service: TokenService)
        ensures
            service.secret() == secret.0@,
    {
        TokenService { jwt_signer: JwtSigner::new(secret.0) }
    }

    /// Verifies a token of any kind at the time `now`.
    pub fn verify_any_at(&self, token: &str, now: u64) -> (result: Result<Claims, JwtVerifyError>)
        ensures
            agrees(result, verified(self.secret(), token@, now)),
    {
        self.jwt_signer.verify_at(token, now)
    }

    /// Verifies a token of any kind at the present time.
    pub fn verify_any(&self, token: &str) -> (result: Result<Claims, JwtVerifyError>)
        ensures
            exists|now: u64| agrees(result, #[trigger] verified(self.secret(), token@, now)),
    {
        let now: u64 = current_timestamp();
        self.verify_any_at(token, now)
    }

    /// Verifies a token at the time `now` and accepts it only as `kind`.
    pub fn verify_kind_at(&self, token: &str, kind: JwtType, now: u64) -> (result: Result<
        Claims,
        JwtVerifyError,
    >)
        ensures
            agrees(result, of_kind(verified(self.secret(), token@, now), kind)),
    {
        match self.verify_any_at(token, now) {
            Err(error) => Err(error),
            Ok(claims) => {
                if claims.jwt_type != kind {
                    Err(JwtVerifyError::InvalidToken)
                } else {
                    Ok(claims)
                }
            },
        }
    }

    /// Verifies an access token at the time `now`.
    pub fn verify_access_token_at(&self, token: &str, now: u64) -> (result: Result<
        Claims,
        JwtVerifyError,
    >)
        ensures
            agrees(result, of_kind(verified(self.secret(), token@, now), JwtType::AccessToken)),
    {
        self.verify_kind_at(token, JwtType::AccessToken, now)
    }

    /// Verifies an access token at the present time.
    pub fn verify_access_token(&self, token: &str) -> (result: Result<Claims, JwtVerifyError>)
        ensures
            exists|now: u64|
                agrees(
                    result,
                    of_kind(#[trigger] verified(self.secret(), token@, now), JwtType::AccessToken),
                ),
    {
        let now: u64 = current_timestamp();
        self.verify_access_token_at(token, now)
    }

    /// Verifies an activation code at the time `now`.
    pub fn verify_activation_code_at(&self, token: &str, now: u64) -> (result: Result<
        Claims,
        JwtVerifyError,
    >)
        ensures
            agrees(
                result,
                of_kind(verified(self.secret(), token@, now), JwtType::ActivationCode),
            ),
    {
        self.verify_kind_at(token, JwtType::ActivationCode, now)
    }

    /// Verifies an activation code at the present time.
    pub fn verify_activation_code(&self, token: &str) -> (result: Result<Claims, JwtVerifyError>)
        ensures
            exists|now: u64|
                agrees(
                    result,
                    of_kind(
                        #[trigger] verified(self.secret(), token@, now),
                        JwtType::ActivationCode,
                    ),
                ),
    {
        let now: u64 = current_timestamp();
        self.verify_activation_code_at(token, now)
    }

    /// Issues a token of kind `jwt_type` at the time `now`.
    pub fn create_at(
        &self,
        jwt_type: JwtType,
        aud: String,
        sub: u128,
        expiry: u64,
        now: u64,
    ) -> (result: Result<String, InternalError>)
        requires
            0 < expiry,
            now + expiry <= u64::MAX,
        ensures
            issues(result, self.secret(), issued_claims(jwt_type, aud@, sub, expiry, now)),
    {
        let claims = Claims::new(jwt_type, aud, sub, expiry, now);
        self.jwt_signer.sign(&claims)
    }

    /// Issues an authorization code for `client_id` and `user_id` at the time
    /// `now`, good for `expiry` seconds.
    pub fn create_authorization_code_at(
        &self,
        client_id: String,
        user_id: u128,
        expiry: u64,
        now: u64,
    ) -> (result: Result<String, InternalError>)
        requires
            0 < expiry,
            now + expiry <= u64::MAX,
        ensures
            issues(
                result,
                self.secret(),
                issued_claims(JwtType::AuthorizationCode, client_id@, user_id, expiry, now),
            ),
    {
        self.create_at(JwtType::AuthorizationCode, client_id, user_id, expiry, now)
    }

    /// Issues an authorization code at the present time.
    pub fn create_authorization_code(&self, client_id: String, user_id: u128, expiry: u64) -> (result:
        Result<String, InternalError>)
        requires
            0 < expiry <= i64::MAX,
        ensures
            exists|now: u64|
                issues(
                    result,
                    self.secret(),
                    #[trigger] issued_claims(
                        JwtType::AuthorizationCode,
                        client_id@,
                        user_id,
                        expiry,
                        now,
                    ),
                ),
    {
        let now: u64 = current_timestamp();
        self.create_authorization_code_at(client_id, user_id, expiry, now)
    }

    /// Issues an access token for `client_id` and `user_id` at the time
    /// `now`, good for `expiry` seconds.
    pub fn create_access_token_at(
        &self,
        client_id: String,
        user_id: u128,
        expiry: u64,
        now: u64,
    ) -> (result: Result<String, InternalError>)
        requires
            0 < expiry,
            now + expiry <= u64::MAX,
        ensures
            issues(
                result,
                self.secret(),
                issued_claims(JwtType::AccessToken, client_id@, user_id, expiry, now),
            ),
    {
        self.create_at(JwtType::AccessToken, client_id, user_id, expiry, now)
    }

    /// Issues an access token at the present time.
    pub fn create_access_token(&self, client_id: String, user_id: u128, expiry: u64) -> (result:
        Result<String, InternalError>)
        requires
            0 < expiry <= i64::MAX,
        ensures
            exists|now: u64|
                issues(
                    result,
                    self.secret(),
                    #[trigger] issued_claims(
                        JwtType::AccessToken,
                        client_id@,
                        user_id,
                        expiry,
                        now,
                    ),
                ),
    {
        let now: u64 = current_timestamp();
        self.create_access_token_at(client_id, user_id, expiry, now)
    }

    /// Issues an activation code for `user_id` at the time `now`: good for
    /// fifteen minutes, with this service as its audience.
    pub fn create_activation_code_at(&self, user_id: u128, now: u64) -> (result: Result<
        String,
        InternalError,
    >)
        requires
            now + ACTIVATION_CODE_LIFETIME <= u64::MAX,
        ensures
            issues(
                result,
                self.secret(),
                issued_claims(
                    JwtType::ActivationCode,
                    issuer_name(),
                    user_id,
                    ACTIVATION_CODE_LIFETIME,
                    now,
                ),
            ),
    {
        self.create_at(
            JwtType::ActivationCode,
            issuer().to_owned(),
            user_id,
            ACTIVATION_CODE_LIFETIME,
            now,
        )
    }

    /// Issues an activation code at the present time.
    pub fn create_activation_code(&self, user_id: u128) -> (result: Result<String, InternalError>)
        ensures
            exists|now: u64|
                issues(
                    result,
                    self.secret(),
                    #[trigger] issued_claims(
                        JwtType::ActivationCode,
                        issuer_name(),
                        user_id,
                        ACTIVATION_CODE_LIFETIME,
                        now,
                    ),
                ),
    {
        let now: u64 = current_timestamp();
        self.create_activation_code_at(user_id, now)
    }

    /// The request that marks `token` as consumed: one atomic "set if absent"
    /// under the code's own key, kept for five minutes.
    pub fn mark_authorization_code_as_used(&self, token: &str) -> (request: SetIfAbsent)
        ensures
            request@ == (SetIfAbsentView {
                key: used_code_key(token@),
                value: token@,
                ttl: USED_CODE_TTL,
            }),
    {
        let mut key = String::from_str("authorization_token:");
        key.append(token);
        SetIfAbsent { key, value: token.to_owned(), ttl: USED_CODE_TTL }
    }

    /// Marks `token` as consumed in a store in memory at the time `now`:
    /// `true` where this call consumed it, `false` where it was consumed
    /// before and the mark has not lapsed.
    pub fn mark_authorization_code_as_used_in(&self, store: &mut MemoryKvs, token: &str, now: u64) -> (first:
        bool)
        requires
            old(store).well_formed(),
        ensures
            final(store).well_formed(),
            final(store)@ == after(
                old(store)@,
                SetIfAbsentView { key: used_code_key(token@), value: token@, ttl: USED_CODE_TTL },
                now as int,
            ),
            first == answer(
                old(store)@,
                SetIfAbsentView { key: used_code_key(token@), value: token@, ttl: USED_CODE_TTL },
                now as int,
            ),
    {
        let request = self.mark_authorization_code_as_used(token);
        let reply = store.set_if_absent(&request, now);
        created(&reply)
    }

    /// Reads the store's answer to that request: `true` where this call
    /// consumed the code, `false` where it had been consumed before.
    pub fn authorization_code_marked(&self, reply: Result<Option<String>, InternalError>) -> (result:
        Result<bool, InternalError>)
        ensures
            match reply {
                Ok(answer) => result matches Ok(first) && first == answer.is_some(),
                Err(error) => result matches Err(same) && same == error,
            },
    {
        match reply {
            Ok(answer) => Ok(created(&answer)),
            Err(error) => Err(error),
        }
    }
}

} // verus!
