use vstd::prelude::*;

use crate::errors::ErrorKind;

verus! {

/// Claims carried by a short-lived access credential: the subject identity
/// and an absolute expiry, as seconds since the epoch.
#[derive(Debug)]
pub struct AccessClaims {
    pub sub: String,
    pub exp: i64,
}

/// Mathematical image of `AccessClaims`.
pub ghost struct AccessClaimsModel {
    pub sub: Seq<char>,
    pub exp: int,
}

impl View for AccessClaims {
    type V = AccessClaimsModel;

    open spec fn view(&self) -> AccessClaimsModel {
        AccessClaimsModel { sub: self.sub@, exp: self.exp as int }
    }
}

/// Claims carried by a longer-lived refresh credential: the subject, the
/// unique identifier (`jti`) that keys its persisted single-use record, and
/// an absolute expiry.
#[derive(Debug)]
pub struct RefreshClaims {
    pub sub: String,
    pub jti: String,
    pub exp: i64,
}

/// Mathematical image of `RefreshClaims`.
pub ghost struct RefreshClaimsModel {
    pub sub: Seq<char>,
    pub jti: Seq<char>,
    pub exp: int,
}

impl View for RefreshClaims {
    type V = RefreshClaimsModel;

    open spec fn view(&self) -> RefreshClaimsModel {
        RefreshClaimsModel { sub: self.sub@, jti: self.jti@, exp: self.exp as int }
    }
}

pub uninterp spec fn access_claims_of(token: Seq<char>, secret: Seq<char>) -> Option<
    AccessClaimsModel,
>;

pub uninterp spec fn refresh_claims_of(token: Seq<char>, secret: Seq<char>) -> Option<
    RefreshClaimsModel,
>;

/// Relies on jsonwebtoken::encode with the default (HS256) header: signing is
/// a pure function of the claims and the secret, HMAC signing of a
/// string/integer claims map cannot fail, and the token decodes, under the
/// same secret, to exactly the claims that were signed.
#[verifier::external_body]
pub(crate) fn sign_access(sub: &str, exp: i64, secret: &str) -> (r: Result<String, ErrorKind>)
    requires
        0 <= exp,
    ensures
        r is Ok,
        r matches Ok(t) ==> access_claims_of(t@, secret@) == Some(
            AccessClaimsModel { sub: sub@, exp: exp as int },
        ),
{
    let mut claims = serde_json::Map::new();
    claims.insert("sub".to_string(), serde_json::Value::from(sub));
    claims.insert("exp".to_string(), serde_json::Value::from(exp));
    let key = jsonwebtoken::EncodingKey::from_secret(secret.as_bytes());
    match jsonwebtoken::encode(&jsonwebtoken::Header::default(), &claims, &key) {
        Ok(t) => Ok(t),
        Err(_) => Err(ErrorKind::SigningFailure),
    }
}

/// Relies on jsonwebtoken::encode, as `sign_access` does, for the refresh
/// claims shape (subject, `jti`, expiry).
#[verifier::external_body]
pub(crate) fn sign_refresh(sub: &str, jti: &str, exp: i64, secret: &str) -> (r: Result<
    String,
    ErrorKind,
>)
    requires
        0 <= exp,
    ensures
        r is Ok,
        r matches Ok(t) ==> refresh_claims_of(t@, secret@) == Some(
            RefreshClaimsModel { sub: sub@, jti: jti@, exp: exp as int },
        ),
{
    let mut claims = serde_json::Map::new();
    claims.insert("sub".to_string(), serde_json::Value::from(sub));
    claims.insert("jti".to_string(), serde_json::Value::from(jti));
    claims.insert("exp".to_string(), serde_json::Value::from(exp));
    let key = jsonwebtoken::EncodingKey::from_secret(secret.as_bytes());
    match jsonwebtoken::encode(&jsonwebtoken::Header::default(), &claims, &key) {
        Ok(t) => Ok(t),
        Err(_) => Err(ErrorKind::SigningFailure),
    }
}

/// Relies on jsonwebtoken::decode: with expiry validation turned off the
/// outcome depends on the token text and the secret alone, and is `Some`
/// exactly when the signature verifies and the claims parse.
#[verifier::external_body]
pub(crate) fn verify_access(token: &str, secret: &str) -> (r: Option<AccessClaims>)
    ensures
        r matches Some(c) ==> access_claims_of(token@, secret@) == Some(c@),
        r is None ==> access_claims_of(token@, secret@) is None,
{
    let mut validation = jsonwebtoken::Validation::default();
    validation.validate_exp = false;
    let key = jsonwebtoken::DecodingKey::from_secret(secret.as_bytes());
    let data = match jsonwebtoken::decode::<serde_json::Value>(token, &key, &validation) {
        Ok(d) => d,
        Err(_) => return None,
    };
    let sub = data.claims.get("sub")?.as_str()?.to_string();
    let exp = data.claims.get("exp")?.as_i64()?;
    Some(AccessClaims { sub, exp })
}

/// Relies on jsonwebtoken::decode, as `verify_access` does, for the refresh
/// claims shape.
#[verifier::external_body]
pub(crate) fn verify_refresh(token: &str, secret: &str) -> (r: Option<RefreshClaims>)
    ensures
        r matches Some(c) ==> refresh_claims_of(token@, secret@) == Some(c@),
        r is None ==> refresh_claims_of(token@, secret@) is None,
{
    let mut validation = jsonwebtoken::Validation::default();
    validation.validate_exp = false;
    let key = jsonwebtoken::DecodingKey::from_secret(secret.as_bytes());
    let data = match jsonwebtoken::decode::<serde_json::Value>(token, &key, &validation) {
        Ok(d) => d,
        Err(_) => return None,
    };
    let sub = data.claims.get("sub")?.as_str()?.to_string();
    let jti = data.claims.get("jti")?.as_str()?.to_string();
    let exp = data.claims.get("exp")?.as_i64()?;
    Some(RefreshClaims { sub, jti, exp })
}

} // verus!
