use vstd::prelude::*;

use crate::strutil::str_equal;

verus! {

/// The `scheme://host` origin that URL parsing yields for a string, if the
/// string parses as a URL with a host.
pub uninterp spec fn parsed_origin(s: Seq<char>) -> Option<Seq<char>>;

/// Relies on url::Url::parse and its scheme/host_str accessors: parsing is a
/// function of the string alone, and yields the origin as scheme, separator,
/// host.
#[verifier::external_body]
fn origin_of_url(s: &str) -> (r: Option<String>)
    ensures
        r matches Some(o) ==> parsed_origin(s@) == Some(o@),
        r is None ==> parsed_origin(s@) is None,
{
    match url::Url::parse(s) {
        Ok(u) => match u.host_str() {
            Some(host) => Some(format!("{}://{}", u.scheme(), host)),
            None => None,
        },
        Err(_) => None,
    }
}

/// Whether a redirect target is acceptable: its parsed `scheme://host`
/// origin must exactly match one of the allow-listed origins.
pub fn is_allowed_redirect(url: &str, allowed: &[String]) -> (r: bool)
    ensures
        r == match parsed_origin(url@) {
            Some(o) => exists|i: int| 0 <= i < allowed@.len() && allowed@[i]@ == o,
            None => false,
        },
{
    let origin = match origin_of_url(url) {
        Some(o) => o,
        None => {
            return false;
        },
    };
    let n = allowed.len();
    for i in 0..n
        invariant
            n == allowed@.len(),
            parsed_origin(url@) == Some(origin@),
            forall|j: int| 0 <= j < i ==> allowed@[j]@ != origin@,
    {
        if str_equal(allowed[i].as_str(), origin.as_str()) {
            return true;
        }
    }
    false
}

} // verus!
