//! From a request target to the upstream URL, and what to report of it.

use crate::target::ProxyTarget;
use crate::text::{
    chars_of, contains_text, ends_with, ends_with_chars, find_chars, occurs_in, same_text,
};
use vstd::prelude::*;
use vstd::string::*;

verus! {

/// The target of a request line, in one of the four forms HTTP knows.
#[derive(Debug, PartialEq, Eq)]
pub enum RequestTarget {
    /// A path on the server, as in `GET /index.html`.
    AbsolutePath(String),
    /// A whole URL, as a client sends to a forward proxy.
    AbsoluteUri(String),
    /// A host and port, as in `CONNECT example.org:443`.
    Authority(String),
    /// The asterisk of `OPTIONS *`.
    Star,
}

/// Why a request cannot be resolved.
#[derive(Clone, Copy, Debug, PartialEq, Eq, Structural)]
pub enum RequestError {
    /// The request target is not a path on the server.
    NotAbsolutePath,
}

/// The paths that the upstream site serves over the secure scheme only.
pub open spec fn is_auth_path(path: Seq<char>) -> bool {
    path == "/signin"@ || path == "/signout"@
}

/// The scheme a path goes upstream with.
pub open spec fn upstream_scheme(scheme: Seq<char>, path: Seq<char>) -> Seq<char> {
    if is_auth_path(path) {
        "https"@
    } else {
        scheme
    }
}

/// The upstream URL of a path.
pub open spec fn upstream_url(scheme: Seq<char>, host: Seq<char>, path: Seq<char>) -> Seq<char> {
    upstream_scheme(scheme, path) + "://"@ + host + path
}

/// Resolves a request target to the URL it is fetched from. Only a path can
/// be resolved; every other form is refused.
pub fn get_url(target: &RequestTarget, proxy: &ProxyTarget) -> (r: Result<String, RequestError>)
    ensures
        match *target {
            RequestTarget::AbsolutePath(path) => r matches Ok(url) && url@ == upstream_url(
                proxy.scheme@,
                proxy.host@,
                path@,
            ),
            _ => r == Err::<String, RequestError>(RequestError::NotAbsolutePath),
        },
{
    match target {
        RequestTarget::AbsolutePath(path) => {
            let secure = same_text(path.as_str(), "/signin") || same_text(
                path.as_str(),
                "/signout",
            );
            let mut url = if secure {
                String::from_str("https")
            } else {
                proxy.scheme.clone()
            };
            url.append("://");
            url.append(proxy.host.as_str());
            url.append(path.as_str());
            Ok(url)
        },
        _ => Err(RequestError::NotAbsolutePath),
    }
}

/// The URL names a picture, a script, a style sheet or a vector graphic,
/// plain or with a version in its query.
pub open spec fn is_asset_url(url: Seq<char>) -> bool {
    ||| ends_with(url, ".jpg"@)
    ||| ends_with(url, ".png"@)
    ||| occurs_in(url, ".js?ver="@)
    ||| ends_with(url, ".js"@)
    ||| occurs_in(url, ".css?ver="@)
    ||| ends_with(url, ".css"@)
    ||| occurs_in(url, ".svg?ver="@)
    ||| ends_with(url, ".svg"@)
}

/// The URL is reported: it is no asset, or it is the proxy's own worker
/// script.
pub open spec fn is_logged(url: Seq<char>) -> bool {
    !is_asset_url(url) || ends_with(url, "service-worker.js"@)
}

/// Which requests are left out of the report.
#[derive(Debug, PartialEq, Eq)]
pub struct LogFilter {
    /// A URL that ends with one of these is left out.
    pub quiet_endings: Vec<String>,
    /// A URL that holds one of these is left out.
    pub quiet_marks: Vec<String>,
    /// A URL that ends with one of these is reported all the same.
    pub loud_endings: Vec<String>,
}

/// The URL ends with one of the patterns.
pub open spec fn ends_with_any(url: Seq<char>, patterns: Seq<String>) -> bool {
    exists|i: int| 0 <= i < patterns.len() && ends_with(url, (#[trigger] patterns[i])@)
}

/// One of the patterns stands in the URL.
pub open spec fn holds_any(url: Seq<char>, patterns: Seq<String>) -> bool {
    exists|i: int| 0 <= i < patterns.len() && occurs_in(url, (#[trigger] patterns[i])@)
}

/// The filter lets the URL into the report.
pub open spec fn passes(url: Seq<char>, filter: LogFilter) -> bool {
    ||| !(ends_with_any(url, filter.quiet_endings@) || holds_any(url, filter.quiet_marks@))
    ||| ends_with_any(url, filter.loud_endings@)
}

/// The filter is the usual one: pictures, scripts, style sheets and vector
/// graphics are quiet, the proxy's own worker script is loud.
pub open spec fn is_usual(filter: LogFilter) -> bool {
    &&& filter.quiet_endings@.len() == 5
    &&& filter.quiet_endings@[0]@ == ".jpg"@
    &&& filter.quiet_endings@[1]@ == ".png"@
    &&& filter.quiet_endings@[2]@ == ".js"@
    &&& filter.quiet_endings@[3]@ == ".css"@
    &&& filter.quiet_endings@[4]@ == ".svg"@
    &&& filter.quiet_marks@.len() == 3
    &&& filter.quiet_marks@[0]@ == ".js?ver="@
    &&& filter.quiet_marks@[1]@ == ".css?ver="@
    &&& filter.quiet_marks@[2]@ == ".svg?ver="@
    &&& filter.loud_endings@.len() == 1
    &&& filter.loud_endings@[0]@ == "service-worker.js"@
}

/// The usual filter.
pub fn usual_filter() -> (filter: LogFilter)
    ensures
        is_usual(filter),
{
    let mut quiet_endings: Vec<String> = Vec::new();
    quiet_endings.push(String::from_str(".jpg"));
    quiet_endings.push(String::from_str(".png"));
    quiet_endings.push(String::from_str(".js"));
    quiet_endings.push(String::from_str(".css"));
    quiet_endings.push(String::from_str(".svg"));
    let mut quiet_marks: Vec<String> = Vec::new();
    quiet_marks.push(String::from_str(".js?ver="));
    quiet_marks.push(String::from_str(".css?ver="));
    quiet_marks.push(String::from_str(".svg?ver="));
    let mut loud_endings: Vec<String> = Vec::new();
    loud_endings.push(String::from_str("service-worker.js"));
    LogFilter { quiet_endings, quiet_marks, loud_endings }
}

/// The usual filter passes exactly the URLs that are reported.
pub proof fn lemma_usual_filter(url: Seq<char>, filter: LogFilter)
    requires
        is_usual(filter),
    ensures
        passes(url, filter) == is_logged(url),
{
    let ends = filter.quiet_endings@;
    let marks = filter.quiet_marks@;
    let loud = filter.loud_endings@;
    if is_asset_url(url) {
        if ends_with(url, ".jpg"@) {
            assert(ends_with(url, ends[0]@));
        } else if ends_with(url, ".png"@) {
            assert(ends_with(url, ends[1]@));
        } else if ends_with(url, ".js"@) {
            assert(ends_with(url, ends[2]@));
        } else if ends_with(url, ".css"@) {
            assert(ends_with(url, ends[3]@));
        } else if ends_with(url, ".svg"@) {
            assert(ends_with(url, ends[4]@));
        } else if occurs_in(url, ".js?ver="@) {
            assert(occurs_in(url, marks[0]@));
        } else if occurs_in(url, ".css?ver="@) {
            assert(occurs_in(url, marks[1]@));
        } else {
            assert(occurs_in(url, marks[2]@));
        }
    }
    if ends_with(url, "service-worker.js"@) {
        assert(ends_with(url, loud[0]@));
    }
}

/// Tells whether `url` ends with one of `patterns`.
fn ends_with_one(url: &Vec<char>, patterns: &Vec<String>) -> (r: bool)
    ensures
        r == ends_with_any(url@, patterns@),
{
    let mut i: usize = 0;
    while i < patterns.len()
        invariant
            i <= patterns.len(),
            forall|j: int| 0 <= j < i ==> !ends_with(url@, (#[trigger] patterns@[j])@),
        decreases patterns.len() - i,
    {
        if ends_with_chars(url, &chars_of(patterns[i].as_str())) {
            return true;
        }
        i += 1;
    }
    false
}

/// Tells whether one of `patterns` stands in `url`.
fn holds_one(url: &Vec<char>, patterns: &Vec<String>) -> (r: bool)
    ensures
        r == holds_any(url@, patterns@),
{
    let mut i: usize = 0;
    while i < patterns.len()
        invariant
            i <= patterns.len(),
            forall|j: int| 0 <= j < i ==> !occurs_in(url@, (#[trigger] patterns@[j])@),
        decreases patterns.len() - i,
    {
        if find_chars(url, &chars_of(patterns[i].as_str())).is_some() {
            return true;
        }
        i += 1;
    }
    false
}

/// Tells whether `filter` lets a request for `url` into the report.
pub fn should_log_with(url: &str, filter: &LogFilter) -> (r: bool)
    ensures
        r == passes(url@, *filter),
{
    let u = chars_of(url);
    let quiet = ends_with_one(&u, &filter.quiet_endings) || holds_one(&u, &filter.quiet_marks);
    !quiet || ends_with_one(&u, &filter.loud_endings)
}

/// Tells whether a request for `url` is reported, by the usual filter.
pub fn should_log(url: &str) -> (r: bool)
    ensures
        r == is_logged(url@),
{
    let filter = usual_filter();
    proof {
        lemma_usual_filter(url@, filter);
    }
    should_log_with(url, &filter)
}

/// The line that reports a request for `url`, where it is reported.
pub fn log_line(url: &str) -> (line: Option<String>)
    ensures
        line is Some <==> is_logged(url@),
        line matches Some(text) ==> text@ == "GET "@ + url@,
{
    if should_log(url) {
        let mut text = String::from_str("GET ");
        text.append(url);
        Some(text)
    } else {
        None
    }
}

/// Where a request is answered from.
#[derive(Clone, Copy, Debug, PartialEq, Eq, Structural)]
pub enum Route {
    /// The proxy answers with its own worker script; nothing goes upstream.
    ServiceWorker,
    /// The request goes upstream and the response is relayed.
    Upstream,
}

/// The path asks for the proxy's worker script.
pub open spec fn asks_for_worker(path: Seq<char>) -> bool {
    occurs_in(path, "service-worker.js"@)
}

/// Decides where a request for `path` is answered from. The path decides
/// alone: neither the scheme nor the upstream host has a say.
pub fn route(path: &str) -> (r: Route)
    ensures
        r == (if asks_for_worker(path@) {
            Route::ServiceWorker
        } else {
            Route::Upstream
        }),
{
    if contains_text(path, "service-worker.js") {
        Route::ServiceWorker
    } else {
        Route::Upstream
    }
}

/// Resolves a request target and decides where the request is answered from:
/// the upstream URL as [`get_url`] gives it, and the route of the path. A
/// target that is no path is refused.
pub fn dispatch(target: &RequestTarget, proxy: &ProxyTarget) -> (r: Result<
    (String, Route),
    RequestError,
>)
    ensures
        match *target {
            RequestTarget::AbsolutePath(path) => r matches Ok(found) && found.0@ == upstream_url(
                proxy.scheme@,
                proxy.host@,
                path@,
            ) && found.1 == (if asks_for_worker(path@) {
                Route::ServiceWorker
            } else {
                Route::Upstream
            }),
            _ => r matches Err(e) && e == RequestError::NotAbsolutePath,
        },
{
    match target {
        RequestTarget::AbsolutePath(path) => match get_url(target, proxy) {
            Ok(url) => Ok((url, route(path.as_str()))),
            Err(e) => Err(e),
        },
        _ => Err(RequestError::NotAbsolutePath),
    }
}

/// A path outside the two authentication paths goes upstream with the
/// configured scheme, host and the path itself; `/signin` and `/signout` go
/// with the secure scheme, whatever scheme is configured.
pub proof fn law_upstream_url(scheme: Seq<char>, host: Seq<char>, path: Seq<char>)
    ensures
        !is_auth_path(path) ==> upstream_url(scheme, host, path) == scheme + "://"@ + host + path,
        is_auth_path(path) ==> upstream_url(scheme, host, path) == "https://"@ + host + path,
        is_auth_path(path) <==> path == "/signin"@ || path == "/signout"@,
{
    reveal_strlit("https");
    reveal_strlit("://");
    reveal_strlit("https://");
    assert("https"@ + "://"@ =~= "https://"@);
}

} // verus!
