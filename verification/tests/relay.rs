use hyper::header::Headers;
use site_relay::headers::{headers_from_lines, BodyMode};
use site_relay::relay::{
    make_script_tag, relay_step, rewrite_body, send_response, start_relay, RelayAction, RelayError,
    RelayEvent, RelayState,
};
use site_relay::target::ProxyTarget;
use site_relay::upstream::{client_policy, get_upstream_data};

fn proxy() -> ProxyTarget {
    ProxyTarget::new("http".to_string(), "example.test".to_string())
}

fn one(line: &str) -> Vec<Vec<u8>> {
    vec![line.as_bytes().to_vec()]
}

fn set(fields: &[(&str, &str)]) -> Headers {
    headers_from_lines(fields.iter().map(|(n, v)| (n.to_string(), one(v))).collect())
}

const TAG: &str =
    "<script>navigator.serviceWorker.register('/service-worker.js?site=example.test');</script>";

/// Runs a relay against a body that upstream delivers in `chunks`, with every
/// write going well, and returns what was written and the last state.
fn run(mode: BodyMode, chunks: &[&[u8]], p: &ProxyTarget) -> (Vec<u8>, RelayState, Vec<&'static str>) {
    let (mut state, mut action) = start_relay(mode);
    let mut written = Vec::new();
    let mut trace = Vec::new();
    let mut next_chunk = 0;
    for _ in 0..1000 {
        let event = match action {
            RelayAction::WriteHead => {
                trace.push("head");
                RelayEvent::Finished
            }
            RelayAction::Write(bytes) => {
                trace.push("write");
                written.extend_from_slice(&bytes);
                RelayEvent::Finished
            }
            RelayAction::ReadBody => {
                trace.push("read-body");
                RelayEvent::Data(chunks.concat())
            }
            RelayAction::ReadChunk => {
                trace.push("read-chunk");
                if next_chunk < chunks.len() {
                    next_chunk += 1;
                    RelayEvent::Data(chunks[next_chunk - 1].to_vec())
                } else {
                    RelayEvent::Eof
                }
            }
            RelayAction::Flush => {
                trace.push("flush");
                RelayEvent::Finished
            }
            RelayAction::End => {
                trace.push("end");
                RelayEvent::Finished
            }
            RelayAction::Stop => return (written, state, trace),
        };
        let next = relay_step(state, event, p);
        state = next.0;
        action = next.1;
    }
    panic!("the relay did not stop");
}

#[test]
fn script_tag_names_the_site() {
    assert_eq!(make_script_tag(&proxy()), TAG);
    let other = ProxyTarget::new("https".to_string(), "".to_string());
    assert_eq!(
        make_script_tag(&other),
        "<script>navigator.serviceWorker.register('/service-worker.js?site=');</script>"
    );
}

#[test]
fn page_body_has_the_host_replaced() {
    let out = rewrite_body(b"<html>visit example.test</html>".to_vec(), &proxy());
    assert_eq!(out, Ok(b"<html>visit localhost:8081</html>".to_vec()));
    assert_eq!(rewrite_body(Vec::new(), &proxy()), Ok(Vec::new()));
    assert_eq!(
        rewrite_body("grüße von example.test".as_bytes().to_vec(), &proxy()),
        Ok("grüße von localhost:8081".as_bytes().to_vec())
    );
}

#[test]
fn page_body_rewrite_hits_substrings_too() {
    let out = rewrite_body(b"mail@example.tests www.example.test".to_vec(), &proxy());
    assert_eq!(out, Ok(b"mail@localhost:8081s www.localhost:8081".to_vec()));
}

#[test]
fn body_that_is_not_text_is_refused() {
    assert_eq!(rewrite_body(vec![0xff, 0xfe, 0x00], &proxy()), Err(RelayError::BodyNotText));
    assert_eq!(rewrite_body(vec![b'a', 0xc3], &proxy()), Err(RelayError::BodyNotText));
}

#[test]
fn html_response_is_planned_as_a_page() {
    let upstream = set(&[
        ("Content-Type", "text/html"),
        ("Content-Length", "31"),
        ("Content-Security-Policy", "default-src 'none'"),
        ("X-XSS-Protection", "1"),
        ("Server", "up"),
    ]);
    let plan = send_response(200, upstream, &proxy());
    assert_eq!(plan.status, 200);
    assert_eq!(plan.mode, BodyMode::Rewritable);
    assert_eq!(plan.state, RelayState::Head(BodyMode::Rewritable));
    assert_eq!(plan.redirect, None);
    assert_eq!(plan.headers.len(), 2);
    assert_eq!(plan.headers.get_raw("content-type").map(|l| l.to_vec()), Some(one("text/html")));
    assert_eq!(plan.headers.get_raw("server").map(|l| l.to_vec()), Some(one("up")));
    assert!(plan.headers.get_raw("content-length").is_none());
}

#[test]
fn html_page_goes_out_behind_the_script_tag() {
    let (written, state, trace) =
        run(BodyMode::Rewritable, &[b"<html>visit example.test</html>"], &proxy());
    let mut expected = TAG.as_bytes().to_vec();
    expected.extend_from_slice(b"<html>visit localhost:8081</html>");
    assert_eq!(written, expected);
    assert_eq!(state, RelayState::Done(true));
    assert_eq!(trace, vec!["head", "write", "read-body", "write", "flush", "end"]);
}

#[test]
fn image_response_is_planned_as_a_stream() {
    let upstream = set(&[
        ("Content-Type", "image/png"),
        ("Content-Length", "8"),
        ("X-XSS-Protection", "1"),
    ]);
    let plan = send_response(200, upstream, &proxy());
    assert_eq!(plan.mode, BodyMode::Streamed);
    assert_eq!(plan.state, RelayState::Head(BodyMode::Streamed));
    assert_eq!(plan.headers.get_raw("content-length").map(|l| l.to_vec()), Some(one("8")));
    assert_eq!(plan.headers.len(), 2);
}

#[test]
fn redirect_response_is_planned_with_its_target() {
    let upstream = set(&[("Location", "https://example.test/signin"), ("Content-Length", "0")]);
    let plan = send_response(302, upstream, &proxy());
    assert_eq!(plan.status, 302);
    assert_eq!(plan.mode, BodyMode::Streamed);
    assert_eq!(plan.redirect, Some("https://example.test/signin".to_string()));
    assert_eq!(
        plan.headers.get_raw("location").map(|l| l.to_vec()),
        Some(one("http://localhost:8081/signin"))
    );
    assert_eq!(plan.headers.get_raw("content-length").map(|l| l.to_vec()), Some(one("0")));
}

#[test]
fn binary_body_is_relayed_byte_for_byte() {
    let chunks: [&[u8]; 4] = [&[0x89, b'P', b'N', b'G'], &[], &[0xff, 0x00, 0xfe], b"example.test"];
    let (written, state, trace) = run(BodyMode::Streamed, &chunks, &proxy());
    assert_eq!(written, chunks.concat());
    assert_eq!(state, RelayState::Done(true));
    assert_eq!(
        trace,
        vec![
            "head", "read-chunk", "write", "read-chunk", "write", "read-chunk", "write",
            "read-chunk", "write", "read-chunk", "flush", "end"
        ]
    );
}

#[test]
fn empty_stream_writes_nothing() {
    let (written, state, trace) = run(BodyMode::Streamed, &[], &proxy());
    assert!(written.is_empty());
    assert_eq!(state, RelayState::Done(true));
    assert_eq!(trace, vec!["head", "read-chunk", "flush", "end"]);
}

#[test]
fn rewriting_twice_injects_twice() {
    let p = proxy();
    let (once, _, _) = run(BodyMode::Rewritable, &[b"<html>example.test</html>"], &p);
    let (twice, state, _) = run(BodyMode::Rewritable, &[&once], &p);
    assert_eq!(state, RelayState::Done(true));
    assert_ne!(once, twice);
    let text = String::from_utf8(twice).unwrap();
    assert_eq!(text.matches("<script>").count(), 2);
    assert_eq!(
        text,
        format!(
            "{}{}<html>localhost:8081</html>",
            TAG,
            TAG.replace("example.test", "localhost:8081")
        )
    );
}

#[test]
fn page_that_is_not_text_ends_after_the_tag() {
    let (written, state, trace) = run(BodyMode::Rewritable, &[&[0xff, 0xfe]], &proxy());
    assert_eq!(written, TAG.as_bytes());
    assert_eq!(state, RelayState::Done(false));
    assert_eq!(trace, vec!["head", "write", "read-body", "flush", "end"]);
}

#[test]
fn failure_in_any_state_leads_to_flush_end_stop() {
    let p = proxy();
    let states = [
        RelayState::Head(BodyMode::Rewritable),
        RelayState::Head(BodyMode::Streamed),
        RelayState::Script,
        RelayState::Body,
        RelayState::Page,
        RelayState::Chunk,
        RelayState::Piece,
    ];
    for state in states {
        let (s1, a1) = relay_step(state, RelayEvent::Failed, &p);
        assert_eq!((s1, a1), (RelayState::Flush(false), RelayAction::Flush));
        let (s2, a2) = relay_step(s1, RelayEvent::Failed, &p);
        assert_eq!((s2, a2), (RelayState::End(false), RelayAction::End));
        let (s3, a3) = relay_step(s2, RelayEvent::Finished, &p);
        assert_eq!((s3, a3), (RelayState::Done(false), RelayAction::Stop));
    }
}

#[test]
fn a_report_that_does_not_fit_counts_as_failure() {
    let p = proxy();
    assert_eq!(
        relay_step(RelayState::Head(BodyMode::Streamed), RelayEvent::Eof, &p),
        (RelayState::Flush(false), RelayAction::Flush)
    );
    assert_eq!(
        relay_step(RelayState::Body, RelayEvent::Finished, &p),
        (RelayState::Flush(false), RelayAction::Flush)
    );
    assert_eq!(
        relay_step(RelayState::Piece, RelayEvent::Data(vec![1]), &p),
        (RelayState::Flush(false), RelayAction::Flush)
    );
    assert_eq!(
        relay_step(RelayState::Chunk, RelayEvent::Finished, &p),
        (RelayState::Flush(false), RelayAction::Flush)
    );
}

#[test]
fn flush_and_end_remember_failure() {
    let p = proxy();
    assert_eq!(
        relay_step(RelayState::Flush(true), RelayEvent::Finished, &p),
        (RelayState::End(true), RelayAction::End)
    );
    assert_eq!(
        relay_step(RelayState::Flush(true), RelayEvent::Failed, &p),
        (RelayState::End(false), RelayAction::End)
    );
    assert_eq!(
        relay_step(RelayState::End(true), RelayEvent::Failed, &p),
        (RelayState::Done(false), RelayAction::Stop)
    );
    assert_eq!(
        relay_step(RelayState::Done(true), RelayEvent::Failed, &p),
        (RelayState::Done(true), RelayAction::Stop)
    );
    assert_eq!(
        relay_step(RelayState::Done(false), RelayEvent::Finished, &p),
        (RelayState::Done(false), RelayAction::Stop)
    );
}

#[test]
fn client_follows_no_redirect_and_waits_ten_seconds() {
    let policy = client_policy();
    assert!(!policy.follow_redirects);
    assert_eq!(policy.read_timeout_secs, 10);
}

#[test]
fn upstream_request_carries_cleaned_headers() {
    let sent = set(&[("Host", "localhost:8081"), ("Referer", "http://localhost:8081/"), ("Accept", "*/*")]);
    let request = get_upstream_data(sent, "http://example.test/".to_string(), &proxy());
    assert_eq!(request.url, "http://example.test/");
    assert_eq!(request.policy, client_policy());
    assert_eq!(request.headers.len(), 2);
    assert_eq!(request.headers.get_raw("host").map(|l| l.to_vec()), Some(one("example.test")));
    assert_eq!(request.headers.get_raw("accept").map(|l| l.to_vec()), Some(one("*/*")));
}
