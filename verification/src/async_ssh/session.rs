//! The configuration of an SSH session.
use vstd::prelude::*;

verus! {

/// How an SSH session is set up.
#[derive(Clone, Debug, PartialEq, Eq, Structural)]
pub struct SessionConfiguration {
    /// Whether the session compresses its traffic.
    pub compress: bool,
    /// The timeout of blocking calls, in milliseconds; none when `None`.
    pub timeout: Option<u32>,
}

impl Default for SessionConfiguration {
    /// No compression and no timeout.
    fn default() -> (r: Self)
        ensures
            !r.compress,
            r.timeout is None,
    {
        SessionConfiguration { compress: false, timeout: None }
    }
}

} // verus!
