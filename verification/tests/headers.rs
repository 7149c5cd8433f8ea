use hyper::header::{Headers, Location};
use site_relay::headers::{
    body_mode, cleanup_request_headers, cleanup_response_headers, headers_from_lines, is_html,
    is_html_type, media_part_of, rewrite_location, BodyMode, UPSTREAM_PORT,
};
use site_relay::target::ProxyTarget;

fn proxy() -> ProxyTarget {
    ProxyTarget::new("http".to_string(), "example.test".to_string())
}

fn one(line: &str) -> Vec<Vec<u8>> {
    vec![line.as_bytes().to_vec()]
}

fn set(fields: &[(&str, &str)]) -> Headers {
    headers_from_lines(fields.iter().map(|(n, v)| (n.to_string(), one(v))).collect())
}

fn line(headers: &Headers, name: &str) -> Option<Vec<Vec<u8>>> {
    headers.get_raw(name).map(|l| l.to_vec())
}

#[test]
fn headers_are_made_of_lines() {
    let h = headers_from_lines(vec![
        ("Accept".to_string(), one("text/html")),
        ("X-Two".to_string(), vec![b"a".to_vec(), b"b".to_vec()]),
        ("accept".to_string(), one("image/png")),
    ]);
    assert_eq!(h.len(), 2);
    assert_eq!(line(&h, "ACCEPT"), Some(one("image/png")));
    assert_eq!(line(&h, "x-two"), Some(vec![b"a".to_vec(), b"b".to_vec()]));
    assert_eq!(line(&h, "x-three"), None);
    assert_eq!(headers_from_lines(Vec::new()).len(), 0);
}

#[test]
fn outbound_names_the_upstream_host() {
    let mut h = set(&[("Host", "localhost:8081"), ("Accept", "*/*")]);
    cleanup_request_headers(&mut h, &proxy());
    assert_eq!(line(&h, "Host"), Some(one("example.test")));
    assert_eq!(line(&h, "Accept"), Some(one("*/*")));
    assert_eq!(h.len(), 2);
    assert_eq!(UPSTREAM_PORT, 80);
}

#[test]
fn outbound_adds_a_host_where_none_was() {
    let mut h = Headers::new();
    cleanup_request_headers(&mut h, &proxy());
    assert_eq!(line(&h, "host"), Some(one("example.test")));
    assert_eq!(h.len(), 1);
}

#[test]
fn outbound_never_forwards_referer_upgrade_or_accept_encoding() {
    let mut h = set(&[
        ("Referer", "http://localhost:8081/page"),
        ("Upgrade", "websocket"),
        ("Accept-Encoding", "gzip, deflate"),
        ("Connection", "keep-alive"),
        ("Cookie", "a=b"),
    ]);
    cleanup_request_headers(&mut h, &proxy());
    assert_eq!(line(&h, "Referer"), None);
    assert_eq!(line(&h, "Upgrade"), None);
    assert_eq!(line(&h, "Accept-Encoding"), None);
    assert_eq!(line(&h, "Connection"), Some(one("keep-alive")));
    assert_eq!(line(&h, "Cookie"), Some(one("a=b")));
    assert_eq!(line(&h, "Host"), Some(one("example.test")));
    assert_eq!(h.len(), 3);
}

#[test]
fn outbound_names_compare_without_case() {
    let mut h = set(&[("REFERER", "x"), ("upgrade", "y"), ("accept-ENCODING", "z"), ("hOsT", "q")]);
    cleanup_request_headers(&mut h, &proxy());
    assert_eq!(h.len(), 1);
    assert_eq!(line(&h, "host"), Some(one("example.test")));
}

#[test]
fn outbound_host_line_has_no_line_breaks() {
    let odd = ProxyTarget::new("http".to_string(), "a\r\nb".to_string());
    let mut h = Headers::new();
    cleanup_request_headers(&mut h, &odd);
    assert_eq!(line(&h, "host"), Some(one("a  b")));
}

#[test]
fn redirect_to_upstream_comes_back_to_the_proxy() {
    let mut h = set(&[("Location", "https://example.test/next?x=1")]);
    let found = cleanup_response_headers(&mut h, BodyMode::Streamed, &proxy());
    assert_eq!(found, Some("https://example.test/next?x=1".to_string()));
    assert_eq!(line(&h, "Location"), Some(one("http://localhost:8081/next?x=1")));
}

#[test]
fn redirect_elsewhere_only_loses_the_secure_scheme() {
    let mut h = set(&[("location", "https://other.test/")]);
    let found = cleanup_response_headers(&mut h, BodyMode::Rewritable, &proxy());
    assert_eq!(found, Some("https://other.test/".to_string()));
    assert_eq!(line(&h, "Location"), Some(one("http://other.test/")));
    assert_eq!(h.len(), 1);
}

#[test]
fn redirect_rewriting_is_literal() {
    let p = proxy();
    assert_eq!(rewrite_location("/relative", &p), "/relative");
    assert_eq!(
        rewrite_location("https://www.example.test/?u=https://example.test/", &p),
        "http://www.localhost:8081/?u=http://localhost:8081/"
    );
    assert_eq!(rewrite_location("http://example.test/", &p), "http://localhost:8081/");
    assert_eq!(rewrite_location("https://notexample.test/", &p), "http://notlocalhost:8081/");
}

#[test]
fn host_inside_the_scheme_breaks_the_prefix() {
    let odd = ProxyTarget::new("http".to_string(), "s".to_string());
    assert_eq!(rewrite_location("https://s/", &odd), "httplocalhost:8081://localhost:8081/");
}

#[test]
fn response_without_redirect_reports_none() {
    let mut h = set(&[("Content-Type", "text/plain")]);
    assert_eq!(cleanup_response_headers(&mut h, BodyMode::Streamed, &proxy()), None);
    assert_eq!(line(&h, "Location"), None);
    assert_eq!(line(&h, "Content-Type"), Some(one("text/plain")));
}

#[test]
fn unreadable_redirect_is_left_alone() {
    let two = vec![b"https://example.test/a".to_vec(), b"https://example.test/b".to_vec()];
    let mut h = headers_from_lines(vec![("Location".to_string(), two.clone())]);
    assert_eq!(cleanup_response_headers(&mut h, BodyMode::Streamed, &proxy()), None);
    assert_eq!(line(&h, "Location"), Some(two));

    let bad = vec![vec![b'h', 0xff, 0xfe]];
    let mut h = headers_from_lines(vec![("Location".to_string(), bad.clone())]);
    assert_eq!(cleanup_response_headers(&mut h, BodyMode::Streamed, &proxy()), None);
    assert_eq!(line(&h, "Location"), Some(bad));

    let empty = vec![Vec::new()];
    let mut h = headers_from_lines(vec![("Location".to_string(), empty.clone())]);
    assert_eq!(cleanup_response_headers(&mut h, BodyMode::Streamed, &proxy()), None);
    assert_eq!(line(&h, "Location"), Some(empty));
}

#[test]
fn typed_redirect_is_read_through_its_line() {
    let mut h = Headers::new();
    h.set(Location("https://example.test/typed".to_string()));
    let found = cleanup_response_headers(&mut h, BodyMode::Streamed, &proxy());
    assert_eq!(found, Some("https://example.test/typed".to_string()));
    assert_eq!(line(&h, "location"), Some(one("http://localhost:8081/typed")));
}

#[test]
fn security_headers_are_always_stripped() {
    for mode in [BodyMode::Rewritable, BodyMode::Streamed] {
        let mut h = set(&[
            ("Content-Security-Policy", "default-src 'self'"),
            ("X-XSS-Protection", "1; mode=block"),
            ("X-Frame-Options", "DENY"),
        ]);
        cleanup_response_headers(&mut h, mode, &proxy());
        assert_eq!(line(&h, "Content-Security-Policy"), None);
        assert_eq!(line(&h, "X-XSS-Protection"), None);
        assert_eq!(line(&h, "X-Frame-Options"), Some(one("DENY")));
        assert_eq!(h.len(), 1);
    }
}

#[test]
fn content_length_goes_where_the_body_is_rewritten() {
    let mut h = set(&[("Content-Length", "31"), ("Content-Type", "text/html")]);
    cleanup_response_headers(&mut h, BodyMode::Rewritable, &proxy());
    assert_eq!(line(&h, "Content-Length"), None);
    assert_eq!(line(&h, "Content-Type"), Some(one("text/html")));
}

#[test]
fn content_length_stays_where_the_body_is_streamed() {
    let mut h = set(&[("Content-Length", "4096"), ("Content-Type", "image/png")]);
    cleanup_response_headers(&mut h, BodyMode::Streamed, &proxy());
    assert_eq!(line(&h, "Content-Length"), Some(one("4096")));
    assert_eq!(h.len(), 2);
}

#[test]
fn html_is_recognised_whatever_follows_the_type() {
    for value in [
        "text/html",
        "text/html; charset=utf-8",
        "text/html;charset=ISO-8859-1",
        "TEXT/HTML",
        "Text/Html; Charset=UTF-8",
        "text/html;",
        "text/html; boundary",
    ] {
        let h = set(&[("Content-Type", value)]);
        assert!(is_html(&h), "{}", value);
        assert_eq!(body_mode(&h), BodyMode::Rewritable);
    }
}

#[test]
fn other_content_is_not_html() {
    for value in [
        "text/plain",
        "text/htmlx",
        "application/xhtml+xml",
        "image/png",
        "application/octet-stream",
        "html",
        "text/",
        " text/html",
        "text/html ; charset=utf-8",
        "*/*",
        "",
    ] {
        let h = set(&[("Content-Type", value)]);
        assert!(!is_html(&h), "{:?}", value);
        assert_eq!(body_mode(&h), BodyMode::Streamed);
    }
}

#[test]
fn missing_or_doubled_content_type_is_not_html() {
    assert!(!is_html(&Headers::new()));
    assert!(!is_html(&set(&[("Content-Length", "3")])));
    let doubled = headers_from_lines(vec![(
        "Content-Type".to_string(),
        vec![b"text/html".to_vec(), b"text/html".to_vec()],
    )]);
    assert!(!is_html(&doubled));
}

#[test]
fn parameters_outside_ascii_do_not_change_the_type() {
    for value in ["text/html; title=\"é\"", "text/html; é", "text/html;é=日本", "TEXT/HTML; \"é"] {
        let h = headers_from_lines(vec![(
            "Content-Type".to_string(),
            vec![value.as_bytes().to_vec()],
        )]);
        assert!(is_html(&h), "{}", value);
        assert_eq!(body_mode(&h), BodyMode::Rewritable);
    }
    let mut broken = b"text/html; charset=".to_vec();
    broken.extend_from_slice(&[0xff, 0xfe]);
    let h = headers_from_lines(vec![("Content-Type".to_string(), vec![broken])]);
    assert!(is_html(&h));
    let h = headers_from_lines(vec![(
        "Content-Type".to_string(),
        vec!["text/plain; title=\"é\"".as_bytes().to_vec()],
    )]);
    assert!(!is_html(&h));
}

#[test]
fn media_type_outside_ascii_is_not_html() {
    for value in ["text/htmlé", "téxt/html", "é", "text/html\u{a0}; charset=utf-8"] {
        let h = headers_from_lines(vec![(
            "Content-Type".to_string(),
            vec![value.as_bytes().to_vec()],
        )]);
        assert!(!is_html(&h), "{}", value);
    }
    let h = headers_from_lines(vec![("Content-Type".to_string(), vec![vec![0xff, 0xfe]])]);
    assert!(!is_html(&h));
}

#[test]
fn media_part_ends_at_the_first_semicolon() {
    assert_eq!(media_part_of(&b"text/html; charset=utf-8".to_vec()), b"text/html".to_vec());
    assert_eq!(media_part_of(&b"text/html".to_vec()), b"text/html".to_vec());
    assert_eq!(media_part_of(&b"text/html;".to_vec()), b"text/html".to_vec());
    assert_eq!(media_part_of(&b"a;b;c".to_vec()), b"a".to_vec());
    assert_eq!(media_part_of(&b";text/html".to_vec()), Vec::<u8>::new());
    assert_eq!(media_part_of(&Vec::new()), Vec::<u8>::new());
    assert_eq!(media_part_of(&vec![0xff, b';', 0xfe]), vec![0xff]);
}

#[test]
fn html_type_by_its_names() {
    assert!(is_html_type("text", "html"));
    assert!(!is_html_type("text", "plain"));
    assert!(!is_html_type("application", "html"));
    assert!(!is_html_type("Text", "html"));
    assert!(!is_html_type("", ""));
}
