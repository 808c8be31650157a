use vstd::prelude::*;

use crate::strutil::str_equal;

verus! {

// ---------------------------------------------------------------------------
// Cookie names and paths
// ---------------------------------------------------------------------------
pub open spec fn access_cookie_name_spec() -> Seq<char> {
    "__Secure-access_token"@
}

pub fn access_cookie_name() -> (r: &'static str)
    ensures
        r@ == access_cookie_name_spec(),
{
    "__Secure-access_token"
}

pub open spec fn refresh_cookie_name_spec() -> Seq<char> {
    "__Secure-refresh_token"@
}

pub fn refresh_cookie_name() -> (r: &'static str)
    ensures
        r@ == refresh_cookie_name_spec(),
{
    "__Secure-refresh_token"
}

pub open spec fn root_path_spec() -> Seq<char> {
    "/"@
}

pub fn root_path() -> (r: &'static str)
    ensures
        r@ == root_path_spec(),
{
    "/"
}

pub open spec fn refresh_path_spec() -> Seq<char> {
    "/api/v1/auth/refresh"@
}

pub fn refresh_path() -> (r: &'static str)
    ensures
        r@ == refresh_path_spec(),
{
    "/api/v1/auth/refresh"
}

// ---------------------------------------------------------------------------
// The transport cookie model
// ---------------------------------------------------------------------------
/// A transport cookie with the attributes the codec controls. `expires_at`
/// is an absolute expiry in seconds since the epoch; `None` makes a session
/// cookie.
pub struct TransportCookie {
    pub name: String,
    pub value: String,
    pub path: String,
    pub domain: Option<String>,
    pub secure: bool,
    pub http_only: bool,
    pub same_site_none: bool,
    pub expires_at: Option<i64>,
}

/// Mathematical image of `TransportCookie`.
pub ghost struct TransportCookieModel {
    pub name: Seq<char>,
    pub value: Seq<char>,
    pub path: Seq<char>,
    pub domain: Option<Seq<char>>,
    pub secure: bool,
    pub http_only: bool,
    pub same_site_none: bool,
    pub expires_at: Option<int>,
}

pub open spec fn domain_view(d: Option<String>) -> Option<Seq<char>> {
    match d {
        Some(s) => Some(s@),
        None => None,
    }
}

pub open spec fn expiry_view(e: Option<i64>) -> Option<int> {
    match e {
        Some(t) => Some(t as int),
        None => None,
    }
}

impl View for TransportCookie {
    type V = TransportCookieModel;

    open spec fn view(&self) -> TransportCookieModel {
        TransportCookieModel {
            name: self.name@,
            value: self.value@,
            path: self.path@,
            domain: domain_view(self.domain),
            secure: self.secure,
            http_only: self.http_only,
            same_site_none: self.same_site_none,
            expires_at: expiry_view(self.expires_at),
        }
    }
}

/// The access/refresh cookie pair that every response carries.
pub struct CookiePair {
    pub access: TransportCookie,
    pub refresh: TransportCookie,
}

/// The access cookie: scoped to the application root, secure, http-only,
/// cross-site-none.
pub open spec fn spec_access_cookie(
    value: Seq<char>,
    domain: Option<Seq<char>>,
    expires_at: Option<int>,
) -> TransportCookieModel {
    TransportCookieModel {
        name: access_cookie_name_spec(),
        value,
        path: root_path_spec(),
        domain,
        secure: true,
        http_only: true,
        same_site_none: true,
        expires_at,
    }
}

/// The refresh cookie: scoped only to the rotation endpoint path, so the
/// refresh secret is never sent on ordinary requests.
pub open spec fn spec_refresh_cookie(
    value: Seq<char>,
    domain: Option<Seq<char>>,
    expires_at: Option<int>,
) -> TransportCookieModel {
    TransportCookieModel {
        name: refresh_cookie_name_spec(),
        value,
        path: refresh_path_spec(),
        domain,
        secure: true,
        http_only: true,
        same_site_none: true,
        expires_at,
    }
}

fn clone_domain(d: &Option<String>) -> (r: Option<String>)
    ensures
        domain_view(r) == domain_view(*d),
{
    match d {
        Some(s) => Some(s.clone()),
        None => None,
    }
}

/// Encodes a freshly issued credential pair as transport cookies. The access
/// cookie is a session cookie on the root path; the refresh cookie carries
/// its own expiry and is scoped to the rotation endpoint path.
pub fn encode_cookies(
    access_token: &str,
    refresh_token: &str,
    domain: &Option<String>,
    refresh_expires_at: i64,
) -> (r: CookiePair)
    ensures
        r.access@ == spec_access_cookie(access_token@, domain_view(*domain), None::<int>),
        r.refresh@ == spec_refresh_cookie(
            refresh_token@,
            domain_view(*domain),
            Some(refresh_expires_at as int),
        ),
{
    let access = TransportCookie {
        name: access_cookie_name().to_owned(),
        value: access_token.to_owned(),
        path: root_path().to_owned(),
        domain: clone_domain(domain),
        secure: true,
        http_only: true,
        same_site_none: true,
        expires_at: None,
    };
    let refresh = TransportCookie {
        name: refresh_cookie_name().to_owned(),
        value: refresh_token.to_owned(),
        path: refresh_path().to_owned(),
        domain: clone_domain(domain),
        secure: true,
        http_only: true,
        same_site_none: true,
        expires_at: Some(refresh_expires_at),
    };
    CookiePair { access, refresh }
}

/// Produces clearing cookies: value empty and expiry at the epoch, with every
/// other attribute identical to what `encode_cookies` emits, since a clearing
/// cookie whose attributes differ does not override the issued one in a
/// client.
pub fn clear_cookies(domain: &Option<String>) -> (r: CookiePair)
    ensures
        r.access@ == spec_access_cookie(Seq::empty(), domain_view(*domain), Some(0int)),
        r.refresh@ == spec_refresh_cookie(Seq::empty(), domain_view(*domain), Some(0int)),
{
    let access = TransportCookie {
        name: access_cookie_name().to_owned(),
        value: String::new(),
        path: root_path().to_owned(),
        domain: clone_domain(domain),
        secure: true,
        http_only: true,
        same_site_none: true,
        expires_at: Some(0),
    };
    let refresh = TransportCookie {
        name: refresh_cookie_name().to_owned(),
        value: String::new(),
        path: refresh_path().to_owned(),
        domain: clone_domain(domain),
        secure: true,
        http_only: true,
        same_site_none: true,
        expires_at: Some(0),
    };
    CookiePair { access, refresh }
}

// ---------------------------------------------------------------------------
// Laws about the emitted cookies
// ---------------------------------------------------------------------------
/// The attributes that decide whether a client treats two cookies as the
/// same: everything but the value and the expiry.
pub open spec fn same_attributes(a: TransportCookieModel, b: TransportCookieModel) -> bool {
    &&& a.name == b.name
    &&& a.path == b.path
    &&& a.domain == b.domain
    &&& a.secure == b.secure
    &&& a.http_only == b.http_only
    &&& a.same_site_none == b.same_site_none
}

/// Law: whatever the values, domain and expiries, the refresh cookie is
/// scoped to the rotation endpoint path, the access cookie to the root path,
/// and both are secure, http-only and cross-site-none.
pub proof fn lemma_cookie_scoping(
    value: Seq<char>,
    domain: Option<Seq<char>>,
    expires_at: Option<int>,
)
    ensures
        spec_refresh_cookie(value, domain, expires_at).path == refresh_path_spec(),
        spec_access_cookie(value, domain, expires_at).path == root_path_spec(),
        spec_access_cookie(value, domain, expires_at).secure,
        spec_access_cookie(value, domain, expires_at).http_only,
        spec_access_cookie(value, domain, expires_at).same_site_none,
        spec_refresh_cookie(value, domain, expires_at).secure,
        spec_refresh_cookie(value, domain, expires_at).http_only,
        spec_refresh_cookie(value, domain, expires_at).same_site_none,
{
}

/// Law: for any domain, the clearing cookies carry attributes identical to
/// the issued cookies of the same domain, and expire at the epoch.
pub proof fn lemma_clear_matches_encode(
    access_value: Seq<char>,
    refresh_value: Seq<char>,
    domain: Option<Seq<char>>,
    refresh_expires_at: int,
)
    ensures
        same_attributes(
            spec_access_cookie(Seq::empty(), domain, Some(0int)),
            spec_access_cookie(access_value, domain, None::<int>),
        ),
        same_attributes(
            spec_refresh_cookie(Seq::empty(), domain, Some(0int)),
            spec_refresh_cookie(refresh_value, domain, Some(refresh_expires_at)),
        ),
        spec_access_cookie(Seq::empty(), domain, Some(0int)).expires_at == Some(0int),
        spec_refresh_cookie(Seq::empty(), domain, Some(0int)).expires_at == Some(0int),
{
}

// ---------------------------------------------------------------------------
// Decoding a Cookie request header
// ---------------------------------------------------------------------------
/// Index of the first occurrence of `c` in `s`, or `s.len()` if absent.
pub open spec fn first_occurrence(s: Seq<char>, c: char) -> int
    decreases s.len(),
{
    if s.len() == 0 {
        0
    } else if s[0] == c {
        0
    } else {
        1 + first_occurrence(s.skip(1), c)
    }
}

proof fn lemma_first_occurrence_bounds(s: Seq<char>, c: char)
    ensures
        0 <= first_occurrence(s, c) <= s.len(),
        first_occurrence(s, c) < s.len() ==> s[first_occurrence(s, c)] == c,
        forall|k: int| 0 <= k < first_occurrence(s, c) ==> s[k] != c,
    decreases s.len(),
{
    if s.len() > 0 && s[0] != c {
        lemma_first_occurrence_bounds(s.skip(1), c);
        let fo = first_occurrence(s, c);
        assert(fo == 1 + first_occurrence(s.skip(1), c));
        assert(forall|k: int| 0 <= k < fo - 1 ==> s.skip(1)[k] != c);
        assert(forall|k: int| 1 <= k < fo ==> s[k] == s.skip(1)[k - 1]);
    }
}

proof fn lemma_first_occurrence_is(s: Seq<char>, c: char, i: int)
    requires
        0 <= i <= s.len(),
        forall|k: int| 0 <= k < i ==> s[k] != c,
        i < s.len() ==> s[i] == c,
    ensures
        first_occurrence(s, c) == i,
{
    lemma_first_occurrence_bounds(s, c);
    let fo = first_occurrence(s, c);
    if fo < i {
        assert(s[fo] != c);
        assert(false);
    }
    if i < fo {
        assert(s[i] != c);
        assert(false);
    }
}

/// `s` with its leading ASCII spaces removed.
pub open spec fn trim_start_spaces(s: Seq<char>) -> Seq<char>
    decreases s.len(),
{
    if s.len() > 0 && s[0] == ' ' {
        trim_start_spaces(s.skip(1))
    } else {
        s
    }
}

proof fn lemma_trim_start_skip(s: Seq<char>, j: int)
    requires
        0 <= j <= s.len(),
        forall|k: int| 0 <= k < j ==> s[k] == ' ',
        j < s.len() ==> s[j] != ' ',
    ensures
        trim_start_spaces(s) == s.skip(j),
    decreases j,
{
    if j == 0 {
        assert(s.skip(0) =~= s);
    } else {
        assert(s[0] == ' ');
        lemma_trim_start_skip(s.skip(1), j - 1);
        assert(s.skip(1).skip(j - 1) =~= s.skip(j));
    }
}

/// The value a single `name=value` segment yields for `name`, if any.
pub open spec fn segment_value(seg: Seq<char>, name: Seq<char>) -> Option<Seq<char>> {
    let e = first_occurrence(seg, '=');
    if e < seg.len() && seg.take(e) == name {
        Some(seg.skip(e + 1))
    } else {
        None
    }
}

/// The value the Cookie request header `h` carries for `name`: segments are
/// separated by semicolons, each may have leading spaces, and splits at its
/// first equals sign; the first matching segment wins.
pub open spec fn cookie_lookup(h: Seq<char>, name: Seq<char>) -> Option<Seq<char>>
    decreases h.len(),
    when true
    via cookie_lookup_decreases
{
    let sep = first_occurrence(h, ';');
    let v = segment_value(trim_start_spaces(h.take(sep)), name);
    if v is Some {
        v
    } else if sep < h.len() {
        cookie_lookup(h.skip(sep + 1), name)
    } else {
        None
    }
}

#[via_fn]
proof fn cookie_lookup_decreases(h: Seq<char>, name: Seq<char>) {
    lemma_first_occurrence_bounds(h, ';');
}

fn find_char(s: &str, c: char) -> (i: usize)
    ensures
        i as int == first_occurrence(s@, c),
        i <= s@.len(),
{
    let n = s.unicode_len();
    for i in 0..n
        invariant
            n == s@.len(),
            forall|j: int| 0 <= j < i ==> s@[j] != c,
    {
        if s.get_char(i) == c {
            proof {
                lemma_first_occurrence_is(s@, c, i as int);
            }
            return i;
        }
    }
    proof {
        lemma_first_occurrence_is(s@, c, n as int);
    }
    n
}

fn trim_leading_spaces<'a>(s: &'a str) -> (r: &'a str)
    ensures
        r@ == trim_start_spaces(s@),
{
    let n = s.unicode_len();
    let mut j: usize = 0;
    while j < n && s.get_char(j) == ' '
        invariant
            j <= n,
            n == s@.len(),
            forall|k: int| 0 <= k < j ==> s@[k] == ' ',
        decreases n - j,
    {
        j = j + 1;
    }
    proof {
        lemma_trim_start_skip(s@, j as int);
    }
    s.substring_char(j, n)
}

fn segment_lookup(seg: &str, name: &str) -> (r: Option<String>)
    ensures
        r matches Some(v) ==> segment_value(seg@, name@) == Some(v@),
        r is None ==> segment_value(seg@, name@) is None,
{
    let n = seg.unicode_len();
    let e = find_char(seg, '=');
    if e < n {
        let key = seg.substring_char(0, e);
        assert(key@ == seg@.take(e as int));
        if str_equal(key, name) {
            let value = seg.substring_char(e + 1, n);
            return Some(value.to_owned());
        }
    }
    None
}

/// Extracts the value of the cookie called `name` from a Cookie request
/// header, if the header carries one.
pub fn decode_cookie(header: &str, name: &str) -> (r: Option<String>)
    ensures
        r matches Some(v) ==> cookie_lookup(header@, name@) == Some(v@),
        r is None ==> cookie_lookup(header@, name@) is None,
    decreases header@.len(),
{
    let n = header.unicode_len();
    let sep = find_char(header, ';');
    proof {
        lemma_first_occurrence_bounds(header@, ';');
    }
    let seg = header.substring_char(0, sep);
    let trimmed = trim_leading_spaces(seg);
    match segment_lookup(trimmed, name) {
        Some(v) => Some(v),
        None => {
            if sep < n {
                let rest = header.substring_char(sep + 1, n);
                decode_cookie(rest, name)
            } else {
                None
            }
        },
    }
}

// ---------------------------------------------------------------------------
// Rendering through the cookie crate
// ---------------------------------------------------------------------------
pub uninterp spec fn cookie_text_of(c: TransportCookieModel) -> Seq<char>;

/// Relies on the cookie crate's builder and Display: the Set-Cookie text is a
/// function of the cookie's attributes alone.
#[verifier::external_body]
fn render_cookie(c: &TransportCookie) -> (r: String)
    ensures
        r@ == cookie_text_of(c@),
{
    let mut b = cookie::Cookie::build((c.name.as_str(), c.value.as_str()))
        .path(c.path.as_str()).secure(c.secure).http_only(c.http_only);
    if c.same_site_none {
        b = b.same_site(cookie::SameSite::None);
    }
    if let Some(d) = &c.domain {
        b = b.domain(d.as_str());
    }
    if let Some(Ok(t)) = c.expires_at.map(cookie::time::OffsetDateTime::from_unix_timestamp) {
        b = b.expires(t);
    }
    b.build().to_string()
}

/// Renders the pair as two Set-Cookie header values, access first.
pub fn set_cookie_headers(pair: &CookiePair) -> (r: (String, String))
    ensures
        r.0@ == cookie_text_of(pair.access@),
        r.1@ == cookie_text_of(pair.refresh@),
{
    (render_cookie(&pair.access), render_cookie(&pair.refresh))
}

} // verus!
