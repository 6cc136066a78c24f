//! The auth gate and the issuing of credentials. A credential is a JSON web
//! token signed with HMAC-SHA256 under the service's secret; its payload
//! names the subject, the company and the moment of expiry.

use vstd::prelude::*;
use vstd::string::*;
use crate::clock::{expiry_at, expiry_of, token_expiry, unix_seconds, CALENDAR_MAX_SECONDS};
use crate::error::ServiceError;

verus! {

/// A parsed JSON document of `serde_json`.
#[verifier::external_type_specification]
#[verifier::external_body]
pub struct ExJsonValue(serde_json::Value);

/// Why `jsonwebtoken` could not sign or would not accept a token.
#[verifier::external_type_specification]
#[verifier::external_body]
pub struct ExTokenError(jsonwebtoken::errors::Error);

/// The members of a JSON object whose value is a string, by name. A document
/// that is no object has none.
pub uninterp spec fn json_text_members(v: serde_json::Value) -> Map<Seq<char>, Seq<char>>;

/// The members of a JSON object whose value is a whole number from 0 to
/// 2^64 - 1, by name. A document that is no object has none.
pub uninterp spec fn json_u64_members(v: serde_json::Value) -> Map<Seq<char>, u64>;

/// The token that `jsonwebtoken` makes under `secret` for the payload with
/// the two string members and the one number member given.
pub uninterp spec fn hs256_token(
    secret: Seq<char>,
    key_a: Seq<char>,
    text_a: Seq<char>,
    key_b: Seq<char>,
    text_b: Seq<char>,
    key_n: Seq<char>,
    number: u64,
) -> Seq<char>;

/// What the verifier makes of `token` under `secret`: nothing where it
/// refuses the token; where it accepts it, the string members and the number
/// members of the payload.
pub uninterp spec fn hs256_payload(token: Seq<char>, secret: Seq<char>) -> Option<
    (Map<Seq<char>, Seq<char>>, Map<Seq<char>, u64>),
>;

/// The string members of the payload with the members `sub` and `company`.
pub open spec fn sub_and_company(sub: Seq<char>, company: Seq<char>) -> Map<Seq<char>, Seq<char>> {
    Map::<Seq<char>, Seq<char>>::empty().insert("sub"@, sub).insert("company"@, company)
}

/// The number members of the payload with the member `exp`.
pub open spec fn exp_alone(exp: u64) -> Map<Seq<char>, u64> {
    Map::<Seq<char>, u64>::empty().insert("exp"@, exp)
}

/// `serde_json::Value::get` with a name, then `as_str`: the string that the
/// object holds under `key`, where it holds one.
#[verifier::external_body]
pub(crate) fn text_member(v: &serde_json::Value, key: &str) -> (r: Option<String>)
    ensures
        match r {
            Some(s) => json_text_members(*v).contains_key(key@) && json_text_members(*v)[key@]
                == s@,
            None => !json_text_members(*v).contains_key(key@),
        },
{
    let member = v.get(key)?;
    Some(member.as_str()?.to_string())
}

/// `serde_json::Value::get` with a name, then `as_u64`: the number that the
/// object holds under `key`, where it holds a whole one that is not negative
/// and fits 64 bits.
#[verifier::external_body]
pub(crate) fn u64_member(v: &serde_json::Value, key: &str) -> (r: Option<u64>)
    ensures
        match r {
            Some(n) => json_u64_members(*v).contains_key(key@) && json_u64_members(*v)[key@] == n,
            None => !json_u64_members(*v).contains_key(key@),
        },
{
    let member = v.get(key)?;
    member.as_u64()
}

/// `jsonwebtoken::encode` with the default header (HS256) and a key made by
/// `EncodingKey::from_secret`, on an object with the three members given.
/// With such a key and header the signer has no way to fail, and the token
/// is a function of the arguments. A token for a string `sub`, a string
/// `company` and a number `exp` is one that `verify_hs256` accepts under the
/// same secret, since the verifier signs the same text again and compares,
/// and its payload reads back as the three members.
#[verifier::external_body]
pub(crate) fn sign_hs256(
    secret: &str,
    key_a: &str,
    text_a: &str,
    key_b: &str,
    text_b: &str,
    key_n: &str,
    number: u64,
) -> (r: Result<String, jsonwebtoken::errors::Error>)
    ensures
        r is Ok,
        r matches Ok(t) ==> t@ == hs256_token(
            secret@,
            key_a@,
            text_a@,
            key_b@,
            text_b@,
            key_n@,
            number,
        ),
        r matches Ok(t) ==> (key_a@ == "sub"@ && key_b@ == "company"@ && key_n@ == "exp"@
            ==> hs256_payload(t@, secret@) == Some(
            (sub_and_company(text_a@, text_b@), exp_alone(number)),
        )),
{
    let mut payload = serde_json::Map::new();
    payload.insert(key_a.to_string(), serde_json::Value::from(text_a));
    payload.insert(key_b.to_string(), serde_json::Value::from(text_b));
    payload.insert(key_n.to_string(), serde_json::Value::from(number));
    let key = jsonwebtoken::EncodingKey::from_secret(secret.as_bytes());
    jsonwebtoken::encode(&jsonwebtoken::Header::default(), &payload, &key)
}

/// `jsonwebtoken::decode` with a key made by `DecodingKey::from_secret` and
/// `Validation::default()` with `validate_exp` switched off: the signature
/// must be HS256 under the secret and an `exp` claim must be there, but the
/// clock is never read. What comes back depends on the token and the secret
/// alone: the payload of a token that the verifier accepts, or its refusal.
#[verifier::external_body]
pub(crate) fn verify_hs256(token: &str, secret: &str) -> (r: Result<
    serde_json::Value,
    jsonwebtoken::errors::Error,
>)
    ensures
        match r {
            Ok(payload) => hs256_payload(token@, secret@) == Some(
                (json_text_members(payload), json_u64_members(payload)),
            ),
            Err(_) => hs256_payload(token@, secret@) is None,
        },
{
    let key = jsonwebtoken::DecodingKey::from_secret(secret.as_bytes());
    let mut validation = jsonwebtoken::Validation::default();
    validation.validate_exp = false;
    jsonwebtoken::decode::<serde_json::Value>(token, &key, &validation).map(|data| data.claims)
}

/// What a credential says of its bearer.
#[derive(Clone, Debug, PartialEq, Eq)]
pub struct Claims {
    /// The subject: the user the credential was issued to.
    pub sub: String,
    /// The company the user belongs to.
    pub company: String,
    /// The moment of expiry, in seconds since the start of 1970.
    pub exp: u64,
}

pub ghost struct ClaimsView {
    pub sub: Seq<char>,
    pub company: Seq<char>,
    pub exp: u64,
}

impl View for Claims {
    type V = ClaimsView;

    open spec fn view(&self) -> ClaimsView {
        ClaimsView { sub: self.sub@, company: self.company@, exp: self.exp }
    }
}

/// The view of optional claims.
pub open spec fn opt_claims(c: Option<Claims>) -> Option<ClaimsView> {
    match c {
        Some(c) => Some(c@),
        None => None,
    }
}

/// The secret under which the service signs and checks credentials.
pub open spec fn signing_secret_text() -> Seq<char> {
    "your-super-secret-and-long-key"@
}

/// The secret under which the service signs and checks credentials.
pub fn signing_secret() -> (s: &'static str)
    ensures
        s@ == signing_secret_text(),
{
    "your-super-secret-and-long-key"
}

/// The claims that a payload holds: a string `sub`, a string `company` and a
/// number `exp`. Other members are ignored; where one of the three is missing
/// or of another kind, the payload holds no claims.
pub open spec fn claims_in(texts: Map<Seq<char>, Seq<char>>, numbers: Map<Seq<char>, u64>) -> Option<
    ClaimsView,
> {
    if texts.contains_key("sub"@) && texts.contains_key("company"@) && numbers.contains_key(
        "exp"@,
    ) {
        Some(ClaimsView { sub: texts["sub"@], company: texts["company"@], exp: numbers["exp"@] })
    } else {
        None
    }
}

/// Reads the claims out of a payload.
pub fn claims_of(payload: &serde_json::Value) -> (r: Option<Claims>)
    ensures
        opt_claims(r) == claims_in(json_text_members(*payload), json_u64_members(*payload)),
{
    let sub = text_member(payload, "sub");
    let company = text_member(payload, "company");
    let exp = u64_member(payload, "exp");
    match (sub, company, exp) {
        (Some(sub), Some(company), Some(exp)) => Some(Claims { sub, company, exp }),
        _ => None,
    }
}

/// The claims of a credential, given what the verifier returned for it: those
/// that the payload holds where the verifier accepted it, none where it did not.
pub fn claims_from(decoded: Result<serde_json::Value, jsonwebtoken::errors::Error>) -> (r: Option<
    Claims,
>)
    ensures
        match decoded {
            Ok(payload) => opt_claims(r) == claims_in(
                json_text_members(payload),
                json_u64_members(payload),
            ),
            Err(_) => r is None,
        },
{
    match decoded {
        Ok(payload) => claims_of(&payload),
        Err(_) => None,
    }
}

/// What is decided on the claims that a credential decoded to, at the moment
/// `now`: they are let through unless they expired before `now`; a
/// credential that did not decode is rejected like an expired one.
pub open spec fn verdict(claims: Option<Claims>, now: u64) -> Result<Claims, ServiceError> {
    match claims {
        Some(c) => if c.exp < now {
            Err(ServiceError::AuthRejected)
        } else {
            Ok(c)
        },
        None => Err(ServiceError::AuthRejected),
    }
}

/// Decides on what a credential decoded to, at the moment `now`.
pub fn decide(claims: Option<Claims>, now: u64) -> (r: Result<Claims, ServiceError>)
    ensures
        r == verdict(claims, now),
        claims is None ==> r == Err::<Claims, ServiceError>(ServiceError::AuthRejected),
        claims matches Some(c) ==> (c.exp < now ==> r == Err::<Claims, ServiceError>(
            ServiceError::AuthRejected,
        )),
{
    match claims {
        Some(c) => {
            if c.exp < now {
                Err(ServiceError::AuthRejected)
            } else {
                Ok(c)
            }
        },
        None => Err(ServiceError::AuthRejected),
    }
}

/// The claims of `token` under `secret`: those that its payload holds, where
/// the verifier accepts the token and the payload holds all three.
pub open spec fn token_claims(token: Seq<char>, secret: Seq<char>) -> Option<ClaimsView> {
    match hs256_payload(token, secret) {
        Some(members) => claims_in(members.0, members.1),
        None => None,
    }
}

/// The text of an optional bearer token.
pub open spec fn bearer_text(bearer: Option<&str>) -> Option<Seq<char>> {
    match bearer {
        Some(token) => Some(token@),
        None => None,
    }
}

/// The view of what the auth gate returns.
pub open spec fn outcome_view(r: Result<Claims, ServiceError>) -> Result<ClaimsView, ServiceError> {
    match r {
        Ok(c) => Ok(c@),
        Err(e) => Err(e),
    }
}

/// What the auth gate owes a request at the moment `now`: the claims of its
/// bearer token under `secret`, where there is a token, it has claims, and
/// they have not expired before `now`; a rejection in every other case.
pub open spec fn authorized(bearer: Option<Seq<char>>, secret: Seq<char>, now: u64) -> Result<
    ClaimsView,
    ServiceError,
> {
    match bearer {
        Some(token) => match token_claims(token, secret) {
            Some(c) => if c.exp < now {
                Err(ServiceError::AuthRejected)
            } else {
                Ok(c)
            },
            None => Err(ServiceError::AuthRejected),
        },
        None => Err(ServiceError::AuthRejected),
    }
}

/// A token that the verifier refuses, or whose payload lacks a claim, is
/// rejected at every moment.
pub proof fn lemma_refused_token_is_rejected(token: Seq<char>, secret: Seq<char>, now: u64)
    requires
        token_claims(token, secret) is None,
    ensures
        authorized(Some(token), secret, now) == Err::<ClaimsView, ServiceError>(
            ServiceError::AuthRejected,
        ),
{
}

/// A token whose expiry lies before `now` is rejected, whatever else it says
/// and whoever signed it.
pub proof fn lemma_expired_token_is_rejected(token: Seq<char>, secret: Seq<char>, now: u64)
    requires
        token_claims(token, secret) matches Some(c) && c.exp < now,
    ensures
        authorized(Some(token), secret, now) == Err::<ClaimsView, ServiceError>(
            ServiceError::AuthRejected,
        ),
{
}

/// A token with claims is accepted at every moment up to its expiry, and the
/// claims come through unchanged.
pub proof fn lemma_unexpired_token_is_accepted(token: Seq<char>, secret: Seq<char>, now: u64)
    requires
        token_claims(token, secret) matches Some(c) && now <= c.exp,
    ensures
        authorized(Some(token), secret, now) == Ok::<ClaimsView, ServiceError>(
            token_claims(token, secret)->Some_0,
        ),
{
}

/// The auth gate at the moment `now`. A request without a bearer token is
/// rejected, and so is one whose token the verifier refuses, whose payload
/// lacks a claim, or whose expiry lies before `now`. Every other request
/// comes through, with the claims of its token.
pub fn authorize_at(bearer: Option<&str>, secret: &str, now: u64) -> (r: Result<
    Claims,
    ServiceError,
>)
    ensures
        outcome_view(r) == authorized(bearer_text(bearer), secret@, now),
        bearer is None ==> r == Err::<Claims, ServiceError>(ServiceError::AuthRejected),
        r matches Ok(c) ==> (bearer is Some && c.exp >= now),
        r matches Err(e) ==> e == ServiceError::AuthRejected,
{
    match bearer {
        None => Err(ServiceError::AuthRejected),
        Some(token) => decide(claims_from(verify_hs256(token, secret)), now),
    }
}

/// The auth gate, now. Beyond what `authorize_at` rejects, the only failure
/// is a clock that cannot be read, and a request without a bearer token is
/// rejected before the clock is looked at.
pub fn authorize(bearer: Option<&str>, secret: &str) -> (r: Result<Claims, ServiceError>)
    ensures
        bearer is None ==> r == Err::<Claims, ServiceError>(ServiceError::AuthRejected),
        r matches Ok(c) ==> (bearer matches Some(token) && token_claims(token@, secret@) == Some(
            c@,
        )),
        r matches Err(e) ==> e == ServiceError::AuthRejected || e == ServiceError::Internal,
        r != Err::<Claims, ServiceError>(ServiceError::Internal) ==> exists|now: u64|
            outcome_view(r) == #[trigger] authorized(bearer_text(bearer), secret@, now),
{
    match bearer {
        None => {
            assert(authorized(bearer_text(bearer), secret@, 0) == Err::<ClaimsView, ServiceError>(
                ServiceError::AuthRejected,
            ));
            Err(ServiceError::AuthRejected)
        },
        Some(_) => {
            match unix_seconds() {
                Err(_) => Err(ServiceError::Internal),
                Ok(now) => authorize_at(bearer, secret, now),
            }
        },
    }
}

/// The credential for a subject and a company that expires at `exp`.
pub open spec fn token_of(secret: Seq<char>, sub: Seq<char>, company: Seq<char>, exp: u64) -> Seq<
    char,
> {
    hs256_token(secret, "sub"@, sub, "company"@, company, "exp"@, exp)
}

/// The credential, given what the signer returned: its token, or an internal
/// failure where it had none.
pub fn token_from(signed: Result<String, jsonwebtoken::errors::Error>) -> (r: Result<
    String,
    ServiceError,
>)
    ensures
        match signed {
            Ok(t) => r == Ok::<String, ServiceError>(t),
            Err(_) => r == Err::<String, ServiceError>(ServiceError::Internal),
        },
{
    match signed {
        Ok(t) => Ok(t),
        Err(_) => Err(ServiceError::Internal),
    }
}

/// Whether `token` is the credential issued at `now` under `secret` for a
/// subject and a company: the signer's token for the two names as given, any
/// strings at all, and the expiry one hour after `now`, which the calendar
/// holds. Under the same secret such a token has exactly these claims.
pub open spec fn is_issued(
    token: Seq<char>,
    secret: Seq<char>,
    sub: Seq<char>,
    company: Seq<char>,
    now: u64,
) -> bool {
    &&& expiry_of(now) <= CALENDAR_MAX_SECONDS
    &&& token == token_of(secret, sub, company, expiry_of(now) as u64)
    &&& token_claims(token, secret) == Some(
        ClaimsView { sub, company, exp: expiry_of(now) as u64 },
    )
}

/// Issues a credential at the moment `now`: it names the subject and the
/// company as given and expires one hour later. It fails only where the
/// calendar cannot hold that moment.
pub fn issue_token(secret: &str, user_id: &str, company: &str, now: u64) -> (r: Result<
    String,
    ServiceError,
>)
    ensures
        match r {
            Ok(t) => is_issued(t@, secret@, user_id@, company@, now),
            Err(e) => e == ServiceError::Internal && expiry_of(now) > CALENDAR_MAX_SECONDS,
        },
{
    match token_expiry(now) {
        Err(_) => Err(ServiceError::Internal),
        Ok(exp) => {
            let r = token_from(sign_hs256(secret, "sub", user_id, "company", company, "exp", exp));
            proof {
                reveal_strlit("sub");
                reveal_strlit("company");
                assert("sub"@.len() == 3);
                assert("company"@.len() == 7);
            }
            r
        },
    }
}

/// A credential is accepted under the secret it was issued with at every
/// moment of the hour that follows, and at the last second of it, and it
/// gives back the subject and the company it was issued for.
pub proof fn lemma_issued_token_is_accepted(
    token: Seq<char>,
    secret: Seq<char>,
    sub: Seq<char>,
    company: Seq<char>,
    issued_at: u64,
    now: u64,
)
    requires
        is_issued(token, secret, sub, company, issued_at),
        now <= expiry_of(issued_at),
    ensures
        authorized(Some(token), secret, now) == Ok::<ClaimsView, ServiceError>(
            ClaimsView { sub, company, exp: expiry_of(issued_at) as u64 },
        ),
{
}

/// Issues a credential for a subject and a company under the service's
/// secret, valid for one hour from now.
pub fn generate_token_handler(user_id: &str, company: &str) -> (r: Result<String, ServiceError>)
    ensures
        r matches Ok(t) ==> exists|now: u64| #[trigger]
            is_issued(t@, signing_secret_text(), user_id@, company@, now),
        r matches Err(e) ==> e == ServiceError::Internal,
{
    match unix_seconds() {
        Err(_) => Err(ServiceError::Internal),
        Ok(now) => issue_token(signing_secret(), user_id, company, now),
    }
}

} // verus!
