use vstd::prelude::*;

use crate::errors::ErrorKind;
use crate::jwt::{
    access_claims_of, refresh_claims_of, sign_access, sign_refresh, AccessClaimsModel,
    RefreshClaimsModel,
};

verus! {

/// Lifetime of an access credential, in seconds (15 minutes).
pub const ACCESS_LIFETIME: i64 = 900;

/// Lifetime of a refresh credential, in seconds (7 days).
pub const REFRESH_LIFETIME: i64 = 604800;

/// A freshly minted credential pair, together with the issuance time and the
/// `jti` under which the refresh credential's single-use record is keyed.
#[derive(Debug)]
pub struct IssuedSession {
    pub access_token: String,
    pub refresh_token: String,
    pub jti: String,
    pub issued_at: i64,
}

/// Both credentials of a session decode, under `secret`, to the subject
/// `sub`, with the fixed lifetimes measured from the issuance time.
pub open spec fn session_issued(s: IssuedSession, sub: Seq<char>, secret: Seq<char>) -> bool {
    &&& 0 <= s.issued_at
    &&& access_claims_of(s.access_token@, secret) == Some(
        AccessClaimsModel { sub, exp: s.issued_at + ACCESS_LIFETIME },
    )
    &&& refresh_claims_of(s.refresh_token@, secret) == Some(
        RefreshClaimsModel { sub, jti: s.jti@, exp: s.issued_at + REFRESH_LIFETIME },
    )
}

/// Creates signed access/refresh credential pairs from a subject identity,
/// with a shared symmetric secret.
pub struct TokenIssuer {
    pub secret: String,
}

impl TokenIssuer {
    pub fn new(secret: String) -> (r: TokenIssuer)
        ensures
            r.secret == secret,
    {
        TokenIssuer { secret }
    }

    /// Mints a credential pair at the given time, under the given fresh
    /// `jti`: the deterministic core of issuance. Symmetric signing cannot
    /// fail, so success is owed.
    pub fn issue_at(&self, subject: &str, now: i64, jti: &str) -> (r: Result<
        IssuedSession,
        ErrorKind,
    >)
        requires
            0 <= now,
            now + REFRESH_LIFETIME <= i64::MAX,
        ensures
            r is Ok,
            r matches Ok(s) ==> s.issued_at == now && s.jti@ == jti@ && session_issued(
                s,
                subject@,
                self.secret@,
            ),
    {
        let access_token = match sign_access(subject, now + ACCESS_LIFETIME, self.secret.as_str()) {
            Ok(t) => t,
            Err(e) => {
                return Err(e);
            },
        };
        let refresh_token = match sign_refresh(
            subject,
            jti,
            now + REFRESH_LIFETIME,
            self.secret.as_str(),
        ) {
            Ok(t) => t,
            Err(e) => {
                return Err(e);
            },
        };
        Ok(IssuedSession { access_token, refresh_token, jti: jti.to_owned(), issued_at: now })
    }

    /// Mints a credential pair at the current time, under a freshly drawn
    /// random `jti`. Issuance fails only when the clock reads outside the
    /// range in which an expiry can be computed; whatever the clock and the
    /// draw returned, a successful result is a properly issued session for
    /// `subject`.
    pub fn issue(&self, subject: &str) -> (r: Result<IssuedSession, ErrorKind>)
        ensures
            r matches Ok(s) ==> session_issued(s, subject@, self.secret@),
            r matches Err(e) ==> e == ErrorKind::SigningFailure,
    {
        let now = now_ts();
        if now < 0 || now > i64::MAX - REFRESH_LIFETIME {
            return Err(ErrorKind::SigningFailure);
        }
        let jti = fresh_jti();
        self.issue_at(subject, now, jti.as_str())
    }
}

/// Relies on chrono's Utc::now for the current time as seconds since the
/// epoch; nothing is assumed of the clock's value.
#[verifier::external_body]
pub(crate) fn now_ts() -> i64 {
    chrono::Utc::now().timestamp()
}

/// Relies on uuid's Uuid::new_v4 for a fresh 128-bit random identifier; its
/// hyphenated text form is always 36 characters long, but which identifier
/// comes back is random.
#[verifier::external_body]
pub(crate) fn fresh_jti() -> (r: String)
    ensures
        r@.len() == 36,
{
    uuid::Uuid::new_v4().to_string()
}

} // verus!
