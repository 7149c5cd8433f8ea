//! The proxy's own worker script, served without asking upstream.

use crate::target::ProxyTarget;
use crate::text::{replace_all, replace_text};
use vstd::prelude::*;
use vstd::string::*;

verus! {

/// A response that the proxy makes itself.
#[derive(Debug, PartialEq, Eq)]
pub struct StaticAsset {
    /// The media type of the body.
    pub content_type: String,
    /// The whole body.
    pub body: String,
}

/// The worker script for a site: the template with every `{site}` replaced by
/// the upstream host.
pub open spec fn worker_script(template: Seq<char>, host: Seq<char>) -> Seq<char> {
    replace_all(template, "{site}"@, host)
}

/// Fills the upstream host into the template of the worker script.
pub fn render_service_worker(template: &str, proxy: &ProxyTarget) -> (script: String)
    ensures
        script@ == worker_script(template@, proxy.host@),
{
    replace_text(template, "{site}", proxy.host.as_str())
}

/// The response that serves the worker script made from `template`.
pub fn send_serviceworker(template: &str, proxy: &ProxyTarget) -> (asset: StaticAsset)
    ensures
        asset.content_type@ == "text/javascript"@,
        asset.body@ == worker_script(template@, proxy.host@),
{
    StaticAsset {
        content_type: String::from_str("text/javascript"),
        body: render_service_worker(template, proxy),
    }
}

} // verus!
