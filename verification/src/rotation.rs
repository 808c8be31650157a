use vstd::prelude::*;

use crate::cookies::{
    access_cookie_name, access_cookie_name_spec, clear_cookies, cookie_lookup, decode_cookie,
    domain_view, encode_cookies, refresh_cookie_name, refresh_cookie_name_spec,
    spec_access_cookie, spec_refresh_cookie, CookiePair,
};
use crate::errors::ErrorKind;
use crate::issuer::{
    fresh_jti, now_ts, session_issued, IssuedSession, TokenIssuer, ACCESS_LIFETIME,
    REFRESH_LIFETIME,
};
use crate::jwt::{
    access_claims_of, refresh_claims_of, verify_access, verify_refresh, AccessClaims,
    AccessClaimsModel, RefreshClaims, RefreshClaimsModel,
};
use crate::store::{RecordData, TokenStore};

verus! {

/// The refresh-cookie value a request presents, if any.
pub open spec fn presented_refresh(cookie_header: Option<&str>) -> Option<Seq<char>> {
    match cookie_header {
        Some(h) => cookie_lookup(h@, refresh_cookie_name_spec()),
        None => None,
    }
}

/// The access-cookie value a request presents, if any.
pub open spec fn presented_access(cookie_header: Option<&str>) -> Option<Seq<char>> {
    match cookie_header {
        Some(h) => cookie_lookup(h@, access_cookie_name_spec()),
        None => None,
    }
}

/// Why rotation rejects a presented refresh credential, if it does: the
/// outcome of the Presented, Parsed and Checked stages against the clock and
/// the store.
pub open spec fn rotation_rejection(
    presented: Option<Seq<char>>,
    secret: Seq<char>,
    now: int,
    store: Map<Seq<char>, RecordData>,
) -> Option<ErrorKind> {
    match presented {
        None => Some(ErrorKind::MissingCredential),
        Some(t) => match refresh_claims_of(t, secret) {
            None => Some(ErrorKind::MalformedToken),
            Some(c) => if c.exp <= now {
                Some(ErrorKind::ExpiredToken)
            } else if !store.contains_key(c.jti) {
                Some(ErrorKind::ReplayedToken)
            } else {
                None
            },
        },
    }
}

/// Why the Presented and Parsed stages reject a refresh credential, if they
/// do, before any store is consulted.
pub open spec fn parse_rejection(
    presented: Option<Seq<char>>,
    secret: Seq<char>,
    now: int,
) -> Option<ErrorKind> {
    match presented {
        None => Some(ErrorKind::MissingCredential),
        Some(t) => match refresh_claims_of(t, secret) {
            None => Some(ErrorKind::MalformedToken),
            Some(c) => if c.exp <= now {
                Some(ErrorKind::ExpiredToken)
            } else {
                None
            },
        },
    }
}

/// The Presented and Parsed stages on their own: extracts the refresh
/// credential from the cookie header and checks signature and expiry, so a
/// caller that owns the persisted store can perform the atomic consume
/// itself and finish with `rotate_consumed`.
pub fn parse_refresh(cookie_header: Option<&str>, secret: &str, now: i64) -> (r: Result<
    RefreshClaims,
    ErrorKind,
>)
    ensures
        ({
            let presented = presented_refresh(cookie_header);
            &&& (parse_rejection(presented, secret@, now as int) matches Some(e) ==> r
                == Err::<RefreshClaims, ErrorKind>(e))
            &&& (parse_rejection(presented, secret@, now as int) is None ==> r is Ok)
            &&& (forall|c: RefreshClaimsModel|
                parse_rejection(presented, secret@, now as int) is None && refresh_claims_of(
                    presented->0,
                    secret@,
                ) == Some(c) ==> (r matches Ok(rc) ==> rc@ == c))
        }),
{
    let header = match cookie_header {
        Some(h) => h,
        None => {
            return Err(ErrorKind::MissingCredential);
        },
    };
    let token = match decode_cookie(header, refresh_cookie_name()) {
        Some(t) => t,
        None => {
            return Err(ErrorKind::MissingCredential);
        },
    };
    let claims = match verify_refresh(token.as_str(), secret) {
        Some(c) => c,
        None => {
            return Err(ErrorKind::MalformedToken);
        },
    };
    if claims.exp <= now {
        return Err(ErrorKind::ExpiredToken);
    }
    Ok(claims)
}

/// The refresh credential's claims for logout: signature checked, expiry
/// deliberately not, so an expired credential's record can still be retired.
pub fn peek_refresh(cookie_header: Option<&str>, secret: &str) -> (r: Option<RefreshClaims>)
    ensures
        ({
            let presented = presented_refresh(cookie_header);
            &&& (presented is None ==> r is None)
            &&& (forall|t: Seq<char>|
                presented == Some(t) && refresh_claims_of(t, secret@) is None ==> r is None)
            &&& (forall|t: Seq<char>, c: RefreshClaimsModel|
                presented == Some(t) && refresh_claims_of(t, secret@) == Some(c) ==> (r matches Some(
                    rc,
                ) && rc@ == c))
        }),
{
    let header = match cookie_header {
        Some(h) => h,
        None => {
            return None;
        },
    };
    let token = match decode_cookie(header, refresh_cookie_name()) {
        Some(t) => t,
        None => {
            return None;
        },
    };
    verify_refresh(token.as_str(), secret)
}

/// The Checked and Rotated stages, given the outcome of the store's atomic
/// delete-and-count for the credential's `jti`: a consume that found no
/// record is a replay, and a consumed record is owed a fresh pair.
pub fn rotate_consumed(
    consumed: bool,
    claims: &RefreshClaims,
    issuer: &TokenIssuer,
    now: i64,
    new_jti: &str,
) -> (r: Result<IssuedSession, ErrorKind>)
    requires
        0 <= now,
        now + REFRESH_LIFETIME <= i64::MAX,
    ensures
        !consumed ==> r == Err::<IssuedSession, ErrorKind>(ErrorKind::ReplayedToken),
        consumed ==> r is Ok,
        r matches Ok(s) ==> s.issued_at == now && s.jti@ == new_jti@ && session_issued(
            s,
            claims.sub@,
            issuer.secret@,
        ),
{
    if !consumed {
        return Err(ErrorKind::ReplayedToken);
    }
    issuer.issue_at(claims.sub.as_str(), now, new_jti)
}

/// Encodes a session's transport cookies, pinning the refresh cookie's
/// expiry attribute to the credential's own expiry: issuance time plus the
/// refresh lifetime.
pub fn session_cookies(session: &IssuedSession, domain: &Option<String>) -> (r: CookiePair)
    requires
        session.issued_at + REFRESH_LIFETIME <= i64::MAX,
    ensures
        r.access@ == spec_access_cookie(
            session.access_token@,
            domain_view(*domain),
            None::<int>,
        ),
        r.refresh@ == spec_refresh_cookie(
            session.refresh_token@,
            domain_view(*domain),
            Some(session.issued_at + REFRESH_LIFETIME),
        ),
{
    encode_cookies(
        session.access_token.as_str(),
        session.refresh_token.as_str(),
        domain,
        session.issued_at + REFRESH_LIFETIME,
    )
}

/// Rotation at a given time under a given fresh `jti`: the deterministic
/// core of the rotation protocol. A rejected credential leaves the store
/// untouched; an accepted one is owed a replacement — its record is
/// atomically consumed and exactly one new record created.
pub fn rotate_at(
    cookie_header: Option<&str>,
    issuer: &TokenIssuer,
    store: &mut TokenStore,
    now: i64,
    new_jti: &str,
) -> (r: Result<IssuedSession, ErrorKind>)
    requires
        old(store).inv(),
        0 <= now,
        now + REFRESH_LIFETIME <= i64::MAX,
    ensures
        final(store).inv(),
        ({
            let presented = presented_refresh(cookie_header);
            &&& (rotation_rejection(presented, issuer.secret@, now as int, old(store)@) matches Some(
                e,
            ) ==> r == Err::<IssuedSession, ErrorKind>(e) && final(store)@ == old(store)@)
            &&& (rotation_rejection(presented, issuer.secret@, now as int, old(store)@) is None
                ==> r is Ok)
            &&& (forall|c: RefreshClaimsModel|
                rotation_rejection(presented, issuer.secret@, now as int, old(store)@) is None
                    && refresh_claims_of(presented->0, issuer.secret@) == Some(c) ==> (r matches Ok(
                    s,
                ) ==> s.issued_at == now && s.jti@ == new_jti@ && session_issued(
                    s,
                    c.sub,
                    issuer.secret@,
                ) && final(store)@ == old(store)@.remove(c.jti).insert(
                    new_jti@,
                    RecordData { subject: c.sub, expires_at: now + REFRESH_LIFETIME },
                )))
        }),
{
    let header = match cookie_header {
        Some(h) => h,
        None => {
            return Err(ErrorKind::MissingCredential);
        },
    };
    let token = match decode_cookie(header, refresh_cookie_name()) {
        Some(t) => t,
        None => {
            return Err(ErrorKind::MissingCredential);
        },
    };
    let claims = match verify_refresh(token.as_str(), issuer.secret.as_str()) {
        Some(c) => c,
        None => {
            return Err(ErrorKind::MalformedToken);
        },
    };
    if claims.exp <= now {
        return Err(ErrorKind::ExpiredToken);
    }
    if !store.consume(claims.jti.as_str()) {
        proof {
            assert(old(store)@.remove(claims.jti@) =~= old(store)@);
        }
        return Err(ErrorKind::ReplayedToken);
    }
    let session = match issuer.issue_at(claims.sub.as_str(), now, new_jti) {
        Ok(s) => s,
        Err(e) => {
            return Err(e);
        },
    };
    store.persist(new_jti, claims.sub.as_str(), now + REFRESH_LIFETIME);
    Ok(session)
}

/// Rotation against the real clock, under a freshly drawn random `jti`.
/// Whether a credential is absent or fails signature verification does not
/// depend on the clock, so those outcomes are pinned exactly; the rest is
/// stated for whatever the clock and the draw returned.
pub fn rotate(cookie_header: Option<&str>, issuer: &TokenIssuer, store: &mut TokenStore) -> (r:
    Result<IssuedSession, ErrorKind>)
    requires
        old(store).inv(),
    ensures
        final(store).inv(),
        ({
            let presented = presented_refresh(cookie_header);
            &&& (presented is None ==> r == Err::<IssuedSession, ErrorKind>(
                ErrorKind::MissingCredential,
            ) && final(store)@ == old(store)@)
            &&& (forall|t: Seq<char>|
                presented == Some(t) && refresh_claims_of(t, issuer.secret@) is None ==> r
                    == Err::<IssuedSession, ErrorKind>(ErrorKind::MalformedToken) && final(store)@
                    == old(store)@)
            &&& (forall|t: Seq<char>, c: RefreshClaimsModel|
                presented == Some(t) && refresh_claims_of(t, issuer.secret@) == Some(c)
                    ==> match r {
                    Ok(s) => session_issued(s, c.sub, issuer.secret@) && c.exp > s.issued_at
                        && final(store)@ == old(store)@.remove(c.jti).insert(
                        s.jti@,
                        RecordData { subject: c.sub, expires_at: s.issued_at + REFRESH_LIFETIME },
                    ),
                    Err(e) => {
                        &&& (e == ErrorKind::ExpiredToken || e == ErrorKind::ReplayedToken || e
                            == ErrorKind::SigningFailure)
                        &&& final(store)@ == old(store)@
                        &&& (e == ErrorKind::ReplayedToken ==> !old(store)@.contains_key(c.jti))
                    },
                })
        }),
{
    let now = now_ts();
    if 0 <= now && now <= i64::MAX - REFRESH_LIFETIME {
        let jti = fresh_jti();
        rotate_at(cookie_header, issuer, store, now, jti.as_str())
    } else {
        // The clock is outside the range in which an expiry can be computed:
        // classify the credential, then report the infrastructure failure.
        let header = match cookie_header {
            Some(h) => h,
            None => {
                return Err(ErrorKind::MissingCredential);
            },
        };
        let token = match decode_cookie(header, refresh_cookie_name()) {
            Some(t) => t,
            None => {
                return Err(ErrorKind::MissingCredential);
            },
        };
        match verify_refresh(token.as_str(), issuer.secret.as_str()) {
            Some(_) => Err(ErrorKind::SigningFailure),
            None => Err(ErrorKind::MalformedToken),
        }
    }
}

/// Login issuance: mints a pair for a subject that just authenticated with
/// the identity provider and records the refresh credential's single-use
/// record; the deterministic core. Symmetric signing cannot fail, so success
/// is owed.
pub fn login_at(
    subject: &str,
    issuer: &TokenIssuer,
    store: &mut TokenStore,
    now: i64,
    jti: &str,
) -> (r: Result<IssuedSession, ErrorKind>)
    requires
        old(store).inv(),
        0 <= now,
        now + REFRESH_LIFETIME <= i64::MAX,
    ensures
        final(store).inv(),
        r is Ok,
        r matches Ok(s) ==> s.issued_at == now && s.jti@ == jti@ && session_issued(
            s,
            subject@,
            issuer.secret@,
        ) && final(store)@ == old(store)@.insert(
            jti@,
            RecordData { subject: subject@, expires_at: now + REFRESH_LIFETIME },
        ),
{
    let session = match issuer.issue_at(subject, now, jti) {
        Ok(s) => s,
        Err(e) => {
            return Err(e);
        },
    };
    store.persist(jti, subject, now + REFRESH_LIFETIME);
    Ok(session)
}

/// Login issuance against the real clock, under a freshly drawn random
/// `jti`. It fails only when the clock reads outside the range in which an
/// expiry can be computed.
pub fn login(subject: &str, issuer: &TokenIssuer, store: &mut TokenStore) -> (r: Result<
    IssuedSession,
    ErrorKind,
>)
    requires
        old(store).inv(),
    ensures
        final(store).inv(),
        match r {
            Ok(s) => session_issued(s, subject@, issuer.secret@)
                && final(store)@ == old(store)@.insert(
                s.jti@,
                RecordData { subject: subject@, expires_at: s.issued_at + REFRESH_LIFETIME },
            ),
            Err(e) => e == ErrorKind::SigningFailure && final(store)@ == old(store)@,
        },
{
    let now = now_ts();
    if now < 0 || now > i64::MAX - REFRESH_LIFETIME {
        return Err(ErrorKind::SigningFailure);
    }
    let jti = fresh_jti();
    login_at(subject, issuer, store, now, jti.as_str())
}

/// Logout: best-effort consumption of the presented refresh credential's
/// record, and clearing cookies are always produced, with attributes
/// identical to the issued ones. Best-effort means: a missing or
/// signature-invalid credential is silently ignored, and expiry is
/// deliberately not examined — the `jti` of any signature-valid credential
/// is consumed, so that logging out with an already-expired credential still
/// retires its record.
pub fn logout(
    cookie_header: Option<&str>,
    secret: &str,
    store: &mut TokenStore,
    domain: &Option<String>,
) -> (r: CookiePair)
    requires
        old(store).inv(),
    ensures
        final(store).inv(),
        r.access@ == spec_access_cookie(Seq::empty(), domain_view(*domain), Some(0int)),
        r.refresh@ == spec_refresh_cookie(Seq::empty(), domain_view(*domain), Some(0int)),
        ({
            let presented = presented_refresh(cookie_header);
            &&& (presented is None ==> final(store)@ == old(store)@)
            &&& (forall|t: Seq<char>|
                presented == Some(t) && refresh_claims_of(t, secret@) is None ==> final(store)@
                    == old(store)@)
            &&& (forall|t: Seq<char>, c: RefreshClaimsModel|
                presented == Some(t) && refresh_claims_of(t, secret@) == Some(c) ==> final(store)@
                    == old(store)@.remove(c.jti))
        }),
{
    if let Some(header) = cookie_header {
        if let Some(token) = decode_cookie(header, refresh_cookie_name()) {
            if let Some(claims) = verify_refresh(token.as_str(), secret) {
                store.consume(claims.jti.as_str());
            }
        }
    }
    clear_cookies(domain)
}

/// What checking a presented access credential yields: purely cryptographic
/// plus a time comparison, never consulting persisted state.
pub open spec fn access_check(
    presented: Option<Seq<char>>,
    secret: Seq<char>,
    now: int,
) -> Result<AccessClaimsModel, ErrorKind> {
    match presented {
        None => Err(ErrorKind::MissingCredential),
        Some(t) => match access_claims_of(t, secret) {
            None => Err(ErrorKind::MalformedToken),
            Some(c) => if c.exp <= now {
                Err(ErrorKind::ExpiredToken)
            } else {
                Ok(c)
            },
        },
    }
}

/// Validates the access cookie a request presents: signature and expiry
/// only.
pub fn check_access(cookie_header: Option<&str>, secret: &str, now: i64) -> (r: Result<
    AccessClaims,
    ErrorKind,
>)
    ensures
        r matches Ok(c) ==> access_check(presented_access(cookie_header), secret@, now as int)
            == Ok::<AccessClaimsModel, ErrorKind>(c@),
        r matches Err(e) ==> access_check(presented_access(cookie_header), secret@, now as int)
            == Err::<AccessClaimsModel, ErrorKind>(e),
{
    let header = match cookie_header {
        Some(h) => h,
        None => {
            return Err(ErrorKind::MissingCredential);
        },
    };
    let token = match decode_cookie(header, access_cookie_name()) {
        Some(t) => t,
        None => {
            return Err(ErrorKind::MissingCredential);
        },
    };
    let claims = match verify_access(token.as_str(), secret) {
        Some(c) => c,
        None => {
            return Err(ErrorKind::MalformedToken);
        },
    };
    if claims.exp <= now {
        return Err(ErrorKind::ExpiredToken);
    }
    Ok(claims)
}

// ---------------------------------------------------------------------------
// Laws of the lifecycle
// ---------------------------------------------------------------------------
/// Law: a freshly issued session verifies. At any time before the access
/// credential's expiry, checking it succeeds and recovers the subject; and
/// while its record is live, the refresh credential passes every rotation
/// check.
pub proof fn lemma_issue_then_verify(
    s: IssuedSession,
    sub: Seq<char>,
    secret: Seq<char>,
    at: int,
    m: Map<Seq<char>, RecordData>,
)
    requires
        session_issued(s, sub, secret),
        s.issued_at <= at < s.issued_at + ACCESS_LIFETIME,
        m.contains_key(s.jti@),
    ensures
        access_check(Some(s.access_token@), secret, at) == Ok::<AccessClaimsModel, ErrorKind>(
            AccessClaimsModel { sub, exp: s.issued_at + ACCESS_LIFETIME },
        ),
        refresh_claims_of(s.refresh_token@, secret) == Some(
            RefreshClaimsModel { sub, jti: s.jti@, exp: s.issued_at + REFRESH_LIFETIME },
        ),
        rotation_rejection(Some(s.refresh_token@), secret, at, m) is None,
{
}

/// Law: rotation consumes-then-replaces. After a successful rotation of the
/// credential with identifier `c.jti` into a record under a distinct fresh
/// identifier, presenting the old credential again is rejected as replayed,
/// whatever the replacement record holds.
pub proof fn lemma_rotation_single_use(
    t: Seq<char>,
    c: RefreshClaimsModel,
    secret: Seq<char>,
    now: int,
    m: Map<Seq<char>, RecordData>,
    new_jti: Seq<char>,
    d: RecordData,
)
    requires
        refresh_claims_of(t, secret) == Some(c),
        c.exp > now,
        new_jti != c.jti,
    ensures
        rotation_rejection(Some(t), secret, now, m.remove(c.jti).insert(new_jti, d)) == Some(
            ErrorKind::ReplayedToken,
        ),
{
}

/// Law: the expiry boundary is independent of persisted state. A refresh
/// credential whose expiry is not in the future is rejected as expired even
/// when the store still holds a live record for its `jti`.
pub proof fn lemma_expired_rejected_despite_record(
    t: Seq<char>,
    c: RefreshClaimsModel,
    secret: Seq<char>,
    now: int,
    m: Map<Seq<char>, RecordData>,
)
    requires
        refresh_claims_of(t, secret) == Some(c),
        c.exp <= now,
    ensures
        rotation_rejection(Some(t), secret, now, m) == Some(ErrorKind::ExpiredToken),
{
}

/// Law: after logout consumed a credential's record, rotating that
/// credential is rejected as replayed.
pub proof fn lemma_logout_then_replay(
    t: Seq<char>,
    c: RefreshClaimsModel,
    secret: Seq<char>,
    now: int,
    m: Map<Seq<char>, RecordData>,
)
    requires
        refresh_claims_of(t, secret) == Some(c),
        c.exp > now,
    ensures
        rotation_rejection(Some(t), secret, now, m.remove(c.jti)) == Some(
            ErrorKind::ReplayedToken,
        ),
{
}

} // verus!
