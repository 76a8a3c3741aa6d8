use crate::helpers::{
    text_response, InternalError, InternalErrorView, IntoResponse, Response, ResponseView,
};
use crate::text::same_text;
use jsonwebtoken::errors::ErrorKind;
use jsonwebtoken::{decode, encode, Algorithm, DecodingKey, EncodingKey, Header, Validation};
use vstd::prelude::*;
use vstd::slice::slice_to_vec;
use vstd::string::StringExecFns;

verus! {

/// A JSON value, as far as a claim can hold one: a string, a number that fits
/// `u64`, or anything else.
pub enum JsonValue {
    Text(Seq<char>),
    Number(u64),
    Other,
}

/// `serde_json::Value`, carried inside a payload and never opened directly.
#[verifier::external_type_specification]
#[verifier::external_body]
pub struct ExJsonValue(serde_json::Value);

/// `serde_json::Map`, the JSON object that a token carries as its payload.
#[verifier::external_type_specification]
#[verifier::external_body]
#[verifier::reject_recursive_types(K)]
#[verifier::reject_recursive_types(V)]
pub struct ExJsonMap<K, V>(serde_json::Map<K, V>);

/// The members of a JSON object: each name with the value stored under it.
pub uninterp spec fn object_entries(object: serde_json::Map<String, serde_json::Value>) -> Map<
    Seq<char>,
    JsonValue,
>;

/// Why a token could not be opened, before any claim was looked at.
#[derive(Clone, Copy, Debug, PartialEq, Eq, Structural)]
pub enum TokenFailure {
    /// Not three parts separated by dots.
    Shape,
    /// The signature does not belong to the header and payload under this secret.
    Signature,
    /// The header names another algorithm than HMAC-SHA256.
    Algorithm,
    /// A part is not base64.
    Encoding,
    /// The header or the payload is not the JSON expected.
    Json,
    /// Any other failure reported by the codec.
    Other,
}

/// What opening `token` under `secret` gives: the payload object of a token
/// that carries a valid HMAC-SHA256 signature, or the reason for refusing it
/// with the codec's message. Neither the clock nor any claim takes part.
pub uninterp spec fn hs256_payload(token: Seq<char>, secret: Seq<u8>) -> Result<
    Map<Seq<char>, JsonValue>,
    (TokenFailure, Seq<char>),
>;

/// The token that signing a JSON object of strings and numbers under
/// `secret` gives: header, payload and HMAC-SHA256 signature, each in
/// base64 and joined by dots. The payload lists the members by name in
/// ascending order.
pub uninterp spec fn hs256_token(secret: Seq<u8>, entries: Map<Seq<char>, JsonValue>) -> Seq<char>;

/// Whether every member of a JSON object is a string or a number that fits
/// `u64`.
pub open spec fn plain_entries(entries: Map<Seq<char>, JsonValue>) -> bool {
    forall|name: Seq<char>|
        entries.contains_key(name) ==> !(#[trigger] entries[name] is Other)
}

/// `serde_json::Map::new`: an object without members.
#[verifier::external_body]
fn object_new() -> (object: serde_json::Map<String, serde_json::Value>)
    ensures
        (object_entries(object) == Map::<Seq<char>, JsonValue>::empty()),
{
    serde_json::Map::new()
}

/// `serde_json::Map::insert` with a string value: the member `name` now holds
/// `text`, the other members are as before.
#[verifier::external_body]
fn object_put_text(
    object: &mut serde_json::Map<String, serde_json::Value>,
    name: &str,
    text: &str,
)
    ensures
        object_entries(*final(object)) == object_entries(*old(object)).insert(
            name@,
            JsonValue::Text(text@),
        ),
{
    object.insert(name.to_owned(), serde_json::Value::from(text));
}

/// `serde_json::Map::insert` with an unsigned number: the member `name` now
/// holds `number`, the other members are as before.
#[verifier::external_body]
fn object_put_number(
    object: &mut serde_json::Map<String, serde_json::Value>,
    name: &str,
    number: u64,
)
    ensures
        object_entries(*final(object)) == object_entries(*old(object)).insert(
            name@,
            JsonValue::Number(number),
        ),
{
    object.insert(name.to_owned(), serde_json::Value::from(number));
}

/// `serde_json::Map::get` for a string member: the text stored under `name`,
/// or `None` where the object has no such member or it is no string.
#[verifier::external_body]
fn object_text(object: &serde_json::Map<String, serde_json::Value>, name: &str) -> (text: Option<
    String,
>)
    ensures
        match text {
            Some(t) => object_entries(*object).contains_key(name@) && object_entries(
                *object,
            )[name@] == JsonValue::Text(t@),
            None => !(object_entries(*object).contains_key(name@) && object_entries(
                *object,
            )[name@] is Text),
        },
{
    match object.get(name) {
        Some(serde_json::Value::String(text)) => Some(text.clone()),
        _ => None,
    }
}

/// `serde_json::Map::get` and `serde_json::Number::as_u64`: the number stored
/// under `name`, or `None` where the object has no such member or it is no
/// number that fits `u64`.
#[verifier::external_body]
fn object_number(object: &serde_json::Map<String, serde_json::Value>, name: &str) -> (number:
    Option<u64>)
    ensures
        match number {
            Some(n) => object_entries(*object).contains_key(name@) && object_entries(
                *object,
            )[name@] == JsonValue::Number(n),
            None => !(object_entries(*object).contains_key(name@) && object_entries(
                *object,
            )[name@] is Number),
        },
{
    match object.get(name) {
        Some(serde_json::Value::Number(number)) => number.as_u64(),
        _ => None,
    }
}

/// `jsonwebtoken::encode` with an HMAC-SHA256 header and `secret` as the key,
/// for an object of strings and numbers. With such a header, a secret as the
/// key and such an object the codec has nothing to refuse, so a token always
/// comes back; it is the same for the same members and secret, and it opens
/// under that secret to the object that was signed.
#[verifier::external_body]
fn sign_hs256(object: &serde_json::Map<String, serde_json::Value>, secret: &[u8]) -> (token:
    Result<String, String>)
    requires
        plain_entries(object_entries(*object)),
    ensures
        token is Ok,
        token matches Ok(t) ==> t@ == hs256_token(secret@, object_entries(*object)),
        token matches Ok(t) ==> (hs256_payload(t@, secret@) matches Ok(entries) && entries
            == object_entries(*object)),
{
    let key = EncodingKey::from_secret(secret);
    encode(&Header::new(Algorithm::HS256), object, &key).map_err(|e| e.to_string())
}

/// `jsonwebtoken::decode` for HMAC-SHA256 under `secret`, with every check on
/// the claims switched off: the signature decides. The result is the payload
/// object, or the codec's reason with its message.
#[verifier::external_body]
fn open_hs256(token: &str, secret: &[u8]) -> (payload: Result<
    serde_json::Map<String, serde_json::Value>,
    (TokenFailure, String),
>)
    ensures
        match payload {
            Ok(object) => hs256_payload(token@, secret@) matches Ok(entries) && entries
                == object_entries(object),
            Err(failure) => hs256_payload(token@, secret@) matches Err(reason) && reason == (
                failure.0,
                failure.1@,
            ),
        },
{
    let mut checks = Validation::new(Algorithm::HS256);
    checks.validate_exp = false;
    checks.validate_aud = false;
    checks.required_spec_claims.clear();
    match decode(token, &DecodingKey::from_secret(secret), &checks) {
        Ok(data) => Ok(data.claims),
        Err(e) => Err((match e.kind() {
            ErrorKind::InvalidToken => TokenFailure::Shape,
            ErrorKind::InvalidSignature => TokenFailure::Signature,
            ErrorKind::InvalidAlgorithm => TokenFailure::Algorithm,
            ErrorKind::Base64(_) => TokenFailure::Encoding,
            ErrorKind::Json(_) => TokenFailure::Json,
            _ => TokenFailure::Other,
        }, e.to_string())),
    }
}

/// What a token is for. A token is accepted only by the operation that its
/// kind names.
#[derive(Clone, Copy, Debug, PartialEq, Eq, Structural)]
pub enum JwtType {
    AuthorizationCode,
    AccessToken,
    RefreshToken,
    ActivationCode,
}

/// The hyphenated lower-case text of a UUID, given as its 128-bit number.
pub uninterp spec fn uuid_text(id: u128) -> Seq<char>;

/// The UUID that a text denotes, in any of the forms the `uuid` crate reads.
pub uninterp spec fn uuid_value(text: Seq<char>) -> Option<u128>;

/// `uuid::Uuid::from_u128` and its `to_string`: the hyphenated text, which
/// reads back as the same UUID.
#[verifier::external_body]
fn format_uuid(id: u128) -> (text: String)
    ensures
        text@ == uuid_text(id),
        uuid_value(text@) == Some(id),
{
    uuid::Uuid::from_u128(id).to_string()
}

/// `uuid::Uuid::parse_str` and `as_u128`: the UUID that `text` denotes, if any.
#[verifier::external_body]
fn parse_uuid(text: &str) -> (id: Option<u128>)
    ensures
        id == uuid_value(text@),
{
    match uuid::Uuid::parse_str(text) {
        Ok(uuid) => Some(uuid.as_u128()),
        Err(_) => None,
    }
}

/// `chrono::Utc::now` and `timestamp`: seconds since the Unix epoch. Chrono
/// refuses a clock set before the epoch, so the number is never negative.
#[verifier::external_body]
fn unix_now() -> (seconds: i64)
    ensures
        0 <= seconds,
{
    chrono::Utc::now().timestamp()
}

/// The issuer written into every token, and the only one accepted.
pub open spec fn issuer_name() -> Seq<char> {
    "agus.dev sso"@
}

/// The issuer written into every token, and the only one accepted.
pub fn issuer() -> (name: &'static str)
    ensures
        name@ == issuer_name(),
{
    "agus.dev sso"
}

/// The current time as whole seconds since the Unix epoch.
pub fn current_timestamp() -> (now: u64)
    ensures
        now <= i64::MAX,
{
    let seconds: i64 = unix_now();
    seconds as u64
}

impl JwtType {
    /// The name under which the kind travels in a token.
    pub open spec fn tag(self) -> Seq<char> {
        match self {
            JwtType::AuthorizationCode => "authorization_code"@,
            JwtType::AccessToken => "access_token"@,
            JwtType::RefreshToken => "refresh_token"@,
            JwtType::ActivationCode => "activation_code"@,
        }
    }

    /// The kind that a name stands for, if it is one of the four.
    pub open spec fn from_tag(tag: Seq<char>) -> Option<JwtType> {
        if tag == "authorization_code"@ {
            Some(JwtType::AuthorizationCode)
        } else if tag == "access_token"@ {
            Some(JwtType::AccessToken)
        } else if tag == "refresh_token"@ {
            Some(JwtType::RefreshToken)
        } else if tag == "activation_code"@ {
            Some(JwtType::ActivationCode)
        } else {
            None
        }
    }

    /// Each kind is read back from its own name.
    pub proof fn lemma_tag_round_trip(kind: JwtType)
        ensures
            JwtType::from_tag(kind.tag()) == Some(kind),
    {
        reveal_strlit("authorization_code");
        reveal_strlit("access_token");
        reveal_strlit("refresh_token");
        reveal_strlit("activation_code");
        assert("authorization_code"@.len() == 18);
        assert("access_token"@.len() == 12);
        assert("refresh_token"@.len() == 13);
        assert("activation_code"@.len() == 15);
    }

    /// The name under which the kind travels in a token.
    pub fn as_str(&self) -> (tag: &'static str)
        ensures
            tag@ == self.tag(),
    {
        match self {
            JwtType::AuthorizationCode => "authorization_code",
            JwtType::AccessToken => "access_token",
            JwtType::RefreshToken => "refresh_token",
            JwtType::ActivationCode => "activation_code",
        }
    }

    /// Reads a kind from its name.
    pub fn parse(tag: &str) -> (kind: Option<JwtType>)
        ensures
            kind == JwtType::from_tag(tag@),
    {
        if same_text(tag, "authorization_code") {
            Some(JwtType::AuthorizationCode)
        } else if same_text(tag, "access_token") {
            Some(JwtType::AccessToken)
        } else if same_text(tag, "refresh_token") {
            Some(JwtType::RefreshToken)
        } else if same_text(tag, "activation_code") {
            Some(JwtType::ActivationCode)
        } else {
            None
        }
    }
}

/// The payload of a token.
#[derive(Debug)]
pub struct Claims {
    pub jwt_type: JwtType,
    pub aud: String,
    pub exp: u64,
    pub iat: u64,
    pub iss: String,
    pub sub: u128,
}

/// The payload of a token as plain mathematical values.
pub struct ClaimsView {
    pub jwt_type: JwtType,
    pub aud: Seq<char>,
    pub exp: u64,
    pub iat: u64,
    pub iss: Seq<char>,
    pub sub: u128,
}

impl View for Claims {
    type V = ClaimsView;

    open spec fn view(&self) -> ClaimsView {
        ClaimsView {
            jwt_type: self.jwt_type,
            aud: self.aud@,
            exp: self.exp,
            iat: self.iat,
            iss: self.iss@,
            sub: self.sub,
        }
    }
}

/// The string stored under `name`, if the object has one.
pub open spec fn text_entry(entries: Map<Seq<char>, JsonValue>, name: Seq<char>) -> Option<
    Seq<char>,
> {
    if entries.contains_key(name) {
        match entries[name] {
            JsonValue::Text(text) => Some(text),
            _ => None,
        }
    } else {
        None
    }
}

/// The number stored under `name`, if the object has one.
pub open spec fn number_entry(entries: Map<Seq<char>, JsonValue>, name: Seq<char>) -> Option<u64> {
    if entries.contains_key(name) {
        match entries[name] {
            JsonValue::Number(number) => Some(number),
            _ => None,
        }
    } else {
        None
    }
}

/// The JSON object that carries `claims`: six members, the kind by its name
/// and the subject as UUID text.
pub open spec fn claims_entries(claims: ClaimsView) -> Map<Seq<char>, JsonValue> {
    Map::<Seq<char>, JsonValue>::empty().insert(
        "jwt_type"@,
        JsonValue::Text(claims.jwt_type.tag()),
    ).insert("aud"@, JsonValue::Text(claims.aud)).insert(
        "exp"@,
        JsonValue::Number(claims.exp),
    ).insert("iat"@, JsonValue::Number(claims.iat)).insert(
        "iss"@,
        JsonValue::Text(claims.iss),
    ).insert("sub"@, JsonValue::Text(uuid_text(claims.sub)))
}

/// The claims that a JSON object carries: all six members must be there
/// with the right type, the kind must be a known name and the subject a
/// UUID. Other members are ignored.
pub open spec fn entries_claims(entries: Map<Seq<char>, JsonValue>) -> Option<ClaimsView> {
    match (
        text_entry(entries, "jwt_type"@),
        text_entry(entries, "aud"@),
        number_entry(entries, "exp"@),
        number_entry(entries, "iat"@),
        text_entry(entries, "iss"@),
        text_entry(entries, "sub"@),
    ) {
        (Some(tag), Some(aud), Some(exp), Some(iat), Some(iss), Some(sub)) => match (
            JwtType::from_tag(tag),
            uuid_value(sub),
        ) {
            (Some(jwt_type), Some(id)) => Some(
                ClaimsView { jwt_type, aud, exp, iat, iss, sub: id },
            ),
            _ => None,
        },
        _ => None,
    }
}

/// How a refused token is reported, as plain mathematical values.
pub enum VerifyFailure {
    InvalidToken,
    ExpiredToken,
    InternalError(InternalErrorView),
}

/// How a failure to open a token is reported: whatever is wrong with the
/// token itself makes it invalid, anything else is an internal error that
/// keeps the codec's message.
pub open spec fn failure_of(reason: TokenFailure, message: Seq<char>) -> VerifyFailure {
    match reason {
        TokenFailure::Other => VerifyFailure::InternalError(InternalErrorView::Jwt(message)),
        _ => VerifyFailure::InvalidToken,
    }
}

/// The time and issuer rules: a token is good strictly before its expiry
/// (`now < exp`, no leeway), and only if this service issued it. Expiry is
/// judged first.
pub open spec fn timely(claims: ClaimsView, now: u64) -> Result<ClaimsView, VerifyFailure> {
    if now >= claims.exp {
        Err(VerifyFailure::ExpiredToken)
    } else if claims.iss != issuer_name() {
        Err(VerifyFailure::InvalidToken)
    } else {
        Ok(claims)
    }
}

/// Verification as a whole, from what opening the token gave and the time.
pub open spec fn verification(
    payload: Result<Map<Seq<char>, JsonValue>, (TokenFailure, Seq<char>)>,
    now: u64,
) -> Result<ClaimsView, VerifyFailure> {
    match payload {
        Err(reason) => Err(failure_of(reason.0, reason.1)),
        Ok(entries) => match entries_claims(entries) {
            None => Err(VerifyFailure::InvalidToken),
            Some(claims) => timely(claims, now),
        },
    }
}

/// The claims that `token` carries under `secret`, whatever the time: `None`
/// where it does not open or does not hold claims.
pub open spec fn token_claims(secret: Seq<u8>, token: Seq<char>) -> Option<ClaimsView> {
    match hs256_payload(token, secret) {
        Ok(entries) => entries_claims(entries),
        Err(_) => None,
    }
}

/// What verifying `token` under `secret` at the time `now` gives.
pub open spec fn verified(secret: Seq<u8>, token: Seq<char>, now: u64) -> Result<
    ClaimsView,
    VerifyFailure,
> {
    verification(hs256_payload(token, secret), now)
}

/// Verification that also asks for one kind of token: another kind is an
/// invalid token, whatever else holds of it.
pub open spec fn of_kind(outcome: Result<ClaimsView, VerifyFailure>, kind: JwtType) -> Result<
    ClaimsView,
    VerifyFailure,
> {
    match outcome {
        Ok(claims) => if claims.jwt_type == kind {
            Ok(claims)
        } else {
            Err(VerifyFailure::InvalidToken)
        },
        Err(failure) => Err(failure),
    }
}

/// The token that carries `claims` under `secret`.
pub open spec fn signed_token(secret: Seq<u8>, claims: ClaimsView) -> Seq<char> {
    hs256_token(secret, claims_entries(claims))
}

/// What signing owes on every input: the token of these claims under this
/// secret, which opens under the secret to exactly these claims.
pub open spec fn signs(
    result: Result<String, InternalError>,
    secret: Seq<u8>,
    claims: ClaimsView,
) -> bool {
    result matches Ok(token) && token@ == signed_token(secret, claims) && token_claims(
        secret,
        token@,
    ) == Some(claims)
}

/// Whether `result` is what `expected` says, claims and errors by their
/// view.
pub open spec fn agrees(
    result: Result<Claims, JwtVerifyError>,
    expected: Result<ClaimsView, VerifyFailure>,
) -> bool {
    match result {
        Ok(claims) => expected == Ok::<ClaimsView, VerifyFailure>(claims@),
        Err(error) => expected == Err::<ClaimsView, VerifyFailure>(error.failure()),
    }
}

/// The six member names are pairwise different.
pub proof fn lemma_member_names_differ()
    ensures
        "jwt_type"@ != "aud"@,
        "jwt_type"@ != "exp"@,
        "jwt_type"@ != "iat"@,
        "jwt_type"@ != "iss"@,
        "jwt_type"@ != "sub"@,
        "aud"@ != "exp"@,
        "aud"@ != "iat"@,
        "aud"@ != "iss"@,
        "aud"@ != "sub"@,
        "exp"@ != "iat"@,
        "exp"@ != "iss"@,
        "exp"@ != "sub"@,
        "iat"@ != "iss"@,
        "iat"@ != "sub"@,
        "iss"@ != "sub"@,
{
    reveal_strlit("jwt_type");
    reveal_strlit("aud");
    reveal_strlit("exp");
    reveal_strlit("iat");
    reveal_strlit("iss");
    reveal_strlit("sub");
    assert("aud"@[0] == 'a');
    assert("exp"@[0] == 'e');
    assert("iat"@[0] == 'i' && "iat"@[1] == 'a');
    assert("iss"@[0] == 'i' && "iss"@[1] == 's');
    assert("sub"@[0] == 's');
}

/// The JSON object of claims holds strings and numbers only.
pub proof fn lemma_claims_are_plain(claims: ClaimsView)
    ensures
        plain_entries(claims_entries(claims)),
{
}

/// Claims written into a JSON object are read back unchanged, provided the
/// subject's text reads back as the subject.
pub proof fn lemma_claims_round_trip(claims: ClaimsView)
    requires
        uuid_value(uuid_text(claims.sub)) == Some(claims.sub),
    ensures
        entries_claims(claims_entries(claims)) == Some(claims),
{
    lemma_member_names_differ();
    JwtType::lemma_tag_round_trip(claims.jwt_type);
}

/// A token that carries claims of this service verifies to exactly those
/// claims, field for field and whatever their kind, at any time before they
/// expire.
pub proof fn lemma_signed_claims_verify(
    secret: Seq<u8>,
    token: Seq<char>,
    claims: ClaimsView,
    now: u64,
)
    requires
        token_claims(secret, token) == Some(claims),
        claims.iss == issuer_name(),
        now < claims.exp,
    ensures
        verified(secret, token, now) matches Ok(read) && read == claims,
{
}

/// A well-signed token whose expiry has come is refused as expired,
/// whatever else holds of it.
pub proof fn lemma_expired_token_refused(
    secret: Seq<u8>,
    token: Seq<char>,
    claims: ClaimsView,
    now: u64,
)
    requires
        token_claims(secret, token) == Some(claims),
        claims.exp <= now,
    ensures
        verified(secret, token, now) matches Err(failure) && failure
            == VerifyFailure::ExpiredToken,
{
}

/// A token that is malformed, wrongly signed or without readable claims is
/// refused as invalid at every time, never as expired.
pub proof fn lemma_corrupted_token_refused(secret: Seq<u8>, token: Seq<char>, now: u64)
    requires
        token_claims(secret, token) is None,
        !(hs256_payload(token, secret) matches Err(reason) && reason.0 is Other),
    ensures
        verified(secret, token, now) matches Err(failure) && failure
            == VerifyFailure::InvalidToken,
{
}

/// A token of one kind is refused wherever another kind is asked for: as
/// invalid before its expiry, and in any case.
pub proof fn lemma_other_kind_refused(
    secret: Seq<u8>,
    token: Seq<char>,
    claims: ClaimsView,
    kind: JwtType,
    now: u64,
)
    requires
        token_claims(secret, token) == Some(claims),
        claims.jwt_type != kind,
    ensures
        of_kind(verified(secret, token, now), kind) is Err,
        now < claims.exp ==> (of_kind(verified(secret, token, now), kind) matches Err(failure)
            && failure == VerifyFailure::InvalidToken),
{
}

impl Claims {
    /// The invariant of issued claims: they expire after they were issued.
    pub open spec fn well_formed(&self) -> bool {
        self.iat < self.exp
    }

    /// Claims of the given kind for `aud` and `sub`, issued at `now` by this
    /// service and expiring `lifetime` seconds later.
    pub fn new(jwt_type: JwtType, aud: String, sub: u128, lifetime: u64, now: u64) -> (claims:
        Claims)
        requires
            0 < lifetime,
            now + lifetime <= u64::MAX,
        ensures
            claims@ == (ClaimsView {
                jwt_type,
                aud: aud@,
                exp: (now + lifetime) as u64,
                iat: now,
                iss: issuer_name(),
                sub,
            }),
            claims.well_formed(),
    {
        let iat: u64 = now;
        let exp: u64 = iat + lifetime;
        Claims { jwt_type, aud, exp, iat, iss: issuer().to_owned(), sub }
    }

    /// Writes the claims into a JSON object. The subject goes in as UUID
    /// text, which reads back as the subject.
    pub fn to_object(&self) -> (object: serde_json::Map<String, serde_json::Value>)
        ensures
            object_entries(object) == claims_entries(self@),
            uuid_value(uuid_text(self.sub)) == Some(self.sub),
    {
        let mut object = object_new();
        let subject = format_uuid(self.sub);
        object_put_text(&mut object, "jwt_type", self.jwt_type.as_str());
        object_put_text(&mut object, "aud", self.aud.as_str());
        object_put_number(&mut object, "exp", self.exp);
        object_put_number(&mut object, "iat", self.iat);
        object_put_text(&mut object, "iss", self.iss.as_str());
        object_put_text(&mut object, "sub", subject.as_str());
        object
    }

    /// Reads claims from a JSON object, or `None` where it does not carry
    /// all of them.
    pub fn from_object(object: &serde_json::Map<String, serde_json::Value>) -> (claims: Option<
        Claims,
    >)
        ensures
            match claims {
                Some(c) => entries_claims(object_entries(*object)) == Some(c@),
                None => entries_claims(object_entries(*object)) is None,
            },
    {
        let tag = object_text(object, "jwt_type");
        let aud = object_text(object, "aud");
        let exp = object_number(object, "exp");
        let iat = object_number(object, "iat");
        let iss = object_text(object, "iss");
        let sub = object_text(object, "sub");
        match (tag, aud, exp, iat, iss, sub) {
            (Some(tag), Some(aud), Some(exp), Some(iat), Some(iss), Some(sub)) => {
                match (JwtType::parse(tag.as_str()), parse_uuid(sub.as_str())) {
                    (Some(jwt_type), Some(id)) => Some(
                        Claims { jwt_type, aud, exp, iat, iss, sub: id },
                    ),
                    _ => None,
                }
            },
            _ => None,
        }
    }

    /// Applies the time and issuer rules to claims read from a token.
    pub fn check_at(self, now: u64) -> (result: Result<Claims, JwtVerifyError>)
        ensures
            agrees(result, timely(self@, now)),
    {
        if now >= self.exp {
            Err(JwtVerifyError::ExpiredToken)
        } else if !same_text(self.iss.as_str(), issuer()) {
            Err(JwtVerifyError::InvalidToken)
        } else {
            Ok(self)
        }
    }
}

/// Why a token was refused.
#[derive(Debug)]
pub enum JwtVerifyError {
    /// Malformed, wrongly signed, of another issuer or of the wrong kind.
    InvalidToken,
    /// Well signed and readable, but past its expiry.
    ExpiredToken,
    /// The codec failed in a way that the token does not explain.
    InternalError(InternalError),
}

impl JwtVerifyError {
    /// The kind of the error, without its detail.
    pub open spec fn failure(&self) -> VerifyFailure {
        match self {
            JwtVerifyError::InvalidToken => VerifyFailure::InvalidToken,
            JwtVerifyError::ExpiredToken => VerifyFailure::ExpiredToken,
            JwtVerifyError::InternalError(error) => VerifyFailure::InternalError(error@),
        }
    }

    /// Reports a failure to open a token: whatever is wrong with the token
    /// itself makes it invalid, anything else is an internal error that keeps
    /// the codec's message.
    pub fn from_failure(reason: TokenFailure, message: String) -> (error: JwtVerifyError)
        ensures
            error.failure() == failure_of(reason, message@),
    {
        match reason {
            TokenFailure::Shape => JwtVerifyError::InvalidToken,
            TokenFailure::Signature => JwtVerifyError::InvalidToken,
            TokenFailure::Algorithm => JwtVerifyError::InvalidToken,
            TokenFailure::Encoding => JwtVerifyError::InvalidToken,
            TokenFailure::Json => JwtVerifyError::InvalidToken,
            TokenFailure::Other => JwtVerifyError::InternalError(InternalError::Jwt(message)),
        }
    }
}

impl JwtVerifyError {
    /// The error in words, for a log.
    pub fn to_string(&self) -> (text: String)
        ensures
            text@ == match self {
                JwtVerifyError::InvalidToken => "Invalid token"@,
                JwtVerifyError::ExpiredToken => "Expired token"@,
                JwtVerifyError::InternalError(error) => "Internal error: "@ + error.prefix()
                    + error.detail(),
            },
    {
        match self {
            JwtVerifyError::InvalidToken => "Invalid token".to_owned(),
            JwtVerifyError::ExpiredToken => "Expired token".to_owned(),
            JwtVerifyError::InternalError(error) => {
                let mut text = String::from_str("Internal error: ");
                text.append(error.to_string().as_str());
                text
            },
        }
    }
}

/// The answer to a request whose token was refused.
pub open spec fn refusal(failure: VerifyFailure) -> ResponseView {
    match failure {
        VerifyFailure::InvalidToken => text_response(401, "invalid token"@),
        VerifyFailure::ExpiredToken => text_response(401, "expired token"@),
        VerifyFailure::InternalError(_) => text_response(500, ""@),
    }
}

impl IntoResponse for JwtVerifyError {
    open spec fn response(&self) -> ResponseView {
        refusal(self.failure())
    }

    fn into_response(self) -> (response: Response) {
        match self {
            JwtVerifyError::InvalidToken => Response::text(401, "invalid token"),
            JwtVerifyError::ExpiredToken => Response::text(401, "expired token"),
            JwtVerifyError::InternalError(error) => error.into_response(),
        }
    }
}

/// Signs claims and verifies tokens under one secret with HMAC-SHA256.
pub struct JwtSigner {
    secret: Vec<u8>,
}

impl JwtSigner {
    /// The secret that signs and verifies.
    pub closed spec fn secret(&self) -> Seq<u8> {
        self.secret@
    }

    pub fn new(secret: &[u8]) -> (signer: JwtSigner)
        ensures
            signer.secret() == secret@,
    {
        JwtSigner { secret: slice_to_vec(secret) }
    }

    /// Signs `claims`. A token always comes back: the one that the codec
    /// gives for these claims under this secret, which carries exactly these
    /// claims.
    pub fn sign(&self, claims: &Claims) -> (token: Result<String, InternalError>)
        ensures
            signs(token, self.secret(), claims@),
    {
        let object = claims.to_object();
        proof {
            lemma_claims_round_trip(claims@);
            lemma_claims_are_plain(claims@);
        }
        match sign_hs256(&object, self.secret.as_slice()) {
            Ok(token) => Ok(token),
            Err(message) => Err(InternalError::Jwt(message)),
        }
    }

    /// Verifies `token` at the time `now`: the signature first, then the
    /// claims, then expiry (`now < exp`), then the issuer.
    pub fn verify_at(&self, token: &str, now: u64) -> (result: Result<Claims, JwtVerifyError>)
        ensures
            agrees(result, verified(self.secret(), token@, now)),
    {
        match open_hs256(token, self.secret.as_slice()) {
            Err(reason) => Err(JwtVerifyError::from_failure(reason.0, reason.1)),
            Ok(object) => match Claims::from_object(&object) {
                None => Err(JwtVerifyError::InvalidToken),
                Some(claims) => claims.check_at(now),
            },
        }
    }

    /// Verifies `token` at the present time.
    pub fn verify(&self, token: &str) -> (result: Result<Claims, JwtVerifyError>)
        ensures
            exists|now: u64| agrees(result, #[trigger] verified(self.secret(), token@, now)),
    {
        let now: u64 = current_timestamp();
        self.verify_at(token, now)
    }
}

} // verus!
