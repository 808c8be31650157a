use vstd::prelude::*;

verus! {

/// Failure taxonomy of the credential subsystem.
///
/// The first four are credential-validation failures: the caller must
/// re-authenticate. The last three are infrastructure failures: the caller
/// may retry the whole request.
#[derive(Clone, Copy, Debug, PartialEq, Eq, Structural)]
pub enum ErrorKind {
    /// No credential was presented at all.
    MissingCredential,
    /// The presented credential failed signature verification or parsing.
    MalformedToken,
    /// The presented credential's expiry lies in the past.
    ExpiredToken,
    /// The refresh credential's record was already consumed (or never issued):
    /// a possible theft/replay indicator.
    ReplayedToken,
    /// The persisted store could not be reached.
    StoreUnavailable,
    /// Credentials could not be minted: the signing secret was unusable, or
    /// the clock read outside the range in which an expiry can be computed.
    SigningFailure,
    /// The upstream identity provider failed.
    UpstreamError,
}

impl ErrorKind {
    /// A validation failure maps to an unauthorized outcome; everything else
    /// is an internal failure.
    pub fn is_validation_failure(&self) -> (r: bool)
        ensures
            r == (*self == ErrorKind::MissingCredential || *self == ErrorKind::MalformedToken
                || *self == ErrorKind::ExpiredToken || *self == ErrorKind::ReplayedToken),
    {
        match self {
            ErrorKind::MissingCredential => true,
            ErrorKind::MalformedToken => true,
            ErrorKind::ExpiredToken => true,
            ErrorKind::ReplayedToken => true,
            _ => false,
        }
    }
}

} // verus!
