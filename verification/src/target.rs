//! The one upstream site a proxy serves, and the address it is served under.

use vstd::prelude::*;

verus! {

/// The upstream site: fixed when the process starts and only read afterwards.
#[derive(Debug, PartialEq, Eq)]
pub struct ProxyTarget {
    /// The protocol that requests go upstream with, unless a path overrides it.
    pub scheme: String,
    /// The upstream host name.
    pub host: String,
}

/// The address under which clients reach the proxy.
pub open spec fn local_address() -> Seq<char> {
    "localhost:8081"@
}

/// The address under which clients reach the proxy.
pub fn local_addr() -> (r: &'static str)
    ensures
        r@ == local_address(),
{
    "localhost:8081"
}

impl ProxyTarget {
    /// A target for `host`, reached by `scheme`.
    pub fn new(scheme: String, host: String) -> (t: ProxyTarget)
        ensures
            t.scheme == scheme,
            t.host == host,
    {
        ProxyTarget { scheme, host }
    }
}

} // verus!
