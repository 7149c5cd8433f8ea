//! What goes upstream with a request, and how the client that sends it is set.

use crate::headers::{cleanup_request_headers, header_lines, lines_readable, outbound_lines};
use crate::target::ProxyTarget;
use hyper::header::Headers;
use vstd::prelude::*;

verus! {

/// How the client that talks to the upstream site behaves.
#[derive(Clone, Copy, Debug, PartialEq, Eq, Structural)]
pub struct ClientPolicy {
    /// Whether the client follows redirects itself.
    pub follow_redirects: bool,
    /// How many seconds a read may take.
    pub read_timeout_secs: u64,
}

/// The policy of the proxy's client: a redirect goes back to the browser, and
/// a read may take ten seconds.
pub fn client_policy() -> (policy: ClientPolicy)
    ensures
        !policy.follow_redirects,
        policy.read_timeout_secs == 10,
{
    ClientPolicy { follow_redirects: false, read_timeout_secs: 10 }
}

/// One request as it goes upstream. The method and the body of the client's
/// request travel with it unchanged.
#[derive(Debug)]
pub struct UpstreamRequest {
    /// The URL that is fetched.
    pub url: String,
    /// The headers that are sent.
    pub headers: Headers,
    /// How the client that sends it is set.
    pub policy: ClientPolicy,
}

/// Makes the request that goes upstream for `url`, out of a copy of the
/// headers that the client sent.
pub fn get_upstream_data(headers: Headers, url: String, proxy: &ProxyTarget) -> (request:
    UpstreamRequest)
    ensures
        request.url == url,
        header_lines(request.headers) == outbound_lines(header_lines(headers), proxy.host@),
        lines_readable(headers) ==> lines_readable(request.headers),
        !request.policy.follow_redirects,
        request.policy.read_timeout_secs == 10,
{
    let mut headers = headers;
    cleanup_request_headers(&mut headers, proxy);
    UpstreamRequest { url, headers, policy: client_policy() }
}

} // verus!
