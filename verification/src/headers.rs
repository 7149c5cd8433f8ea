//! Header sets, and what a proxy changes in them on the way up and on the
//! way back.
//!
//! A header set is hyper's `Headers`. Verus does not look inside one: the
//! contracts speak of the lines it holds under each field name.

use crate::target::{local_addr, local_address, ProxyTarget};
use crate::text::{
    lemma_replace_keeps_apart, lemma_replace_keeps_prefix, lemma_replace_puts_in, occurs_at,
    occurs_in, replace_all, replace_text, same_text, starts_with,
};
use hyper::header::{ContentType, Header, Headers, Location};
use hyper::mime::Mime;
use vstd::prelude::*;
use vstd::utf8::*;

verus! {

/// hyper's map of header fields.
#[verifier::external_type_specification]
#[verifier::external_body]
pub struct ExHeaders(hyper::header::Headers);

/// The lines that a header set holds under each field name, as hyper's
/// `Headers::get_raw` hands them out. Field names compare without regard to
/// ASCII case, so the keys are field names in lower case (see [`field_key`]).
pub uninterp spec fn header_lines(headers: Headers) -> Map<Seq<char>, Seq<Seq<u8>>>;

/// Every field of the set can give its lines: it holds them, or it holds the
/// one typed value that they are rendered from. hyper panics when it reads a
/// field of which neither is true.
pub uninterp spec fn lines_readable(headers: Headers) -> bool;

/// An ASCII capital as its small letter, any other character as it is.
pub open spec fn lower_char(c: char) -> char {
    if 'A' <= c && c <= 'Z' {
        ((c as u8) + 32) as u8 as char
    } else {
        c
    }
}

/// The key of a field name: the name in ASCII lower case.
pub open spec fn field_key(name: Seq<char>) -> Seq<char> {
    name.map_values(|c: char| lower_char(c))
}

/// A line as hyper renders a typed value: its bytes, with every carriage
/// return and line feed turned into a space.
pub open spec fn flat_line(bytes: Seq<u8>) -> Seq<u8> {
    bytes.map_values(
        |b: u8|
            if b == 10 || b == 13 {
                32u8
            } else {
                b
            },
    )
}

/// The views of the lines of a field.
pub open spec fn lines_of(lines: Vec<Vec<u8>>) -> Seq<Seq<u8>> {
    lines@.map_values(|l: Vec<u8>| l@)
}

/// The lines of a header set without fields.
pub open spec fn no_lines() -> Map<Seq<char>, Seq<Seq<u8>>> {
    Map::empty()
}

/// An empty header set.
///
/// Trusted: calls `Headers::new`, which makes a map without fields.
#[verifier::external_body]
fn empty_headers() -> (headers: Headers)
    ensures
        header_lines(headers) == no_lines(),
        lines_readable(headers),
{
    Headers::new()
}

/// Puts `lines` under `name`, in place of what the field held.
///
/// Trusted: calls `Headers::set_raw`, which inserts the lines under the name
/// and replaces a field whose name differs in ASCII case only.
#[verifier::external_body]
fn set_lines(headers: &mut Headers, name: String, lines: Vec<Vec<u8>>)
    ensures
        header_lines(*final(headers)) == header_lines(*old(headers)).insert(
            field_key(name@),
            lines_of(lines),
        ),
        lines_readable(*old(headers)) ==> lines_readable(*final(headers)),
{
    headers.set_raw(name, lines)
}

/// The lines under `name`, if the set has that field.
///
/// Trusted: calls `Headers::get_raw`, which looks the name up without regard
/// to ASCII case and hands out the field's lines; it panics on a field that
/// cannot give them, which `requires` leaves out.
#[verifier::external_body]
fn field_lines(headers: &Headers, name: &str) -> (r: Option<Vec<Vec<u8>>>)
    requires
        lines_readable(*headers),
    ensures
        r is Some <==> header_lines(*headers).dom().contains(field_key(name@)),
        r matches Some(lines) ==> lines_of(lines) == header_lines(*headers)[field_key(name@)],
{
    match headers.get_raw(name) {
        Some(lines) => Some(lines.to_vec()),
        None => None,
    }
}

/// Takes the field `name` out of the set.
///
/// Trusted: calls `Headers::remove_raw`, which removes the field of that name,
/// compared without regard to ASCII case, and leaves the others.
#[verifier::external_body]
fn remove_field(headers: &mut Headers, name: &str)
    ensures
        header_lines(*final(headers)) == header_lines(*old(headers)).remove(field_key(name@)),
        lines_readable(*old(headers)) ==> lines_readable(*final(headers)),
{
    headers.remove_raw(name)
}

/// Sets the `Host` field to `hostname` and `port`.
///
/// Trusted: calls `Headers::set` with hyper's `Host`. hyper renders a `Host`
/// whose port is 80 or 443 as the host name alone, and a typed value as one
/// line in which line breaks have become spaces.
#[verifier::external_body]
fn set_host(headers: &mut Headers, hostname: String, port: u16)
    requires
        port == 80 || port == 443,
    ensures
        header_lines(*final(headers)) == header_lines(*old(headers)).insert(
            field_key("Host"@),
            seq![flat_line(encode_utf8(hostname@))],
        ),
        lines_readable(*old(headers)) ==> lines_readable(*final(headers)),
{
    headers.set(hyper::header::Host { hostname: hostname, port: Some(port) })
}

/// The fields of a request as they go upstream.
///
/// `Host` names the upstream site. `Referer` is taken out, so that the
/// proxy's address does not leak; `Upgrade`, because no other protocol is
/// passed through; `Accept-Encoding`, so that the body comes back as it is
/// and can be rewritten.
pub open spec fn outbound_lines(fields: Map<Seq<char>, Seq<Seq<u8>>>, host: Seq<char>) -> Map<
    Seq<char>,
    Seq<Seq<u8>>,
> {
    fields.insert(field_key("Host"@), seq![flat_line(encode_utf8(host))]).remove(
        field_key("Referer"@),
    ).remove(field_key("Upgrade"@)).remove(field_key("Accept-Encoding"@))
}

/// The port that the `Host` field is set with. hyper leaves it out of the
/// line it renders.
pub const UPSTREAM_PORT: u16 = 80;

/// Removes from a request's headers what must not travel upstream, and names
/// the upstream site as the host.
pub fn cleanup_request_headers(headers: &mut Headers, proxy: &ProxyTarget)
    ensures
        header_lines(*final(headers)) == outbound_lines(header_lines(*old(headers)), proxy.host@),
        lines_readable(*old(headers)) ==> lines_readable(*final(headers)),
{
    set_host(headers, proxy.host.clone(), UPSTREAM_PORT);
    remove_field(headers, "Referer");
    remove_field(headers, "Upgrade");
    remove_field(headers, "Accept-Encoding");
}

/// How a response body goes back to the client.
#[derive(Clone, Copy, Debug, PartialEq, Eq, Structural)]
pub enum BodyMode {
    /// Read whole, taken as text, rewritten, then written.
    Rewritable,
    /// Copied through as it comes, byte for byte.
    Streamed,
}

/// Every byte of the line is ASCII.
pub open spec fn is_ascii_line(line: Seq<u8>) -> bool {
    forall|i: int| 0 <= i < line.len() ==> line[i] < 128
}

/// Every line is ASCII.
pub open spec fn all_ascii(lines: Seq<Seq<u8>>) -> bool {
    forall|k: int| 0 <= k < lines.len() ==> is_ascii_line(#[trigger] lines[k])
}

/// The type and subtype that hyper reads out of the lines of a `Content-Type`
/// field, in lower case, or `None` where it does not take them for a media
/// type. It stands for what `ContentType::parse_header` returns.
pub uninterp spec fn media_type_of(lines: Seq<Seq<u8>>) -> Option<(Seq<char>, Seq<char>)>;

/// The text of a field that must hold exactly one line that is not empty and
/// is UTF-8.
pub open spec fn single_text(lines: Seq<Seq<u8>>) -> Option<Seq<char>> {
    if lines.len() == 1 && lines[0].len() > 0 && valid_utf8(lines[0]) {
        Some(decode_utf8(lines[0]))
    } else {
        None
    }
}

/// Reads a media type out of the lines of a `Content-Type` field.
///
/// Trusted: calls `ContentType::parse_header` and hands out the names of the
/// type and the subtype of the `Mime` it returns. The parser of the mime crate
/// counts characters where it cuts bytes and can panic on a line that holds a
/// character of more than one byte, which `requires` leaves out.
#[verifier::external_body]
fn parse_content_type(lines: &Vec<Vec<u8>>) -> (r: Option<(String, String)>)
    requires
        all_ascii(lines_of(*lines)),
    ensures
        r is Some <==> media_type_of(lines_of(*lines)) is Some,
        r matches Some(names) ==> media_type_of(lines_of(*lines)) == Some((names.0@, names.1@)),
{
    match ContentType::parse_header(&lines[..]) {
        Ok(ContentType(Mime(top, sub, _))) => Some((top.as_str().to_owned(), sub.as_str().to_owned())),
        Err(_) => None,
    }
}

/// Reads the target of a redirect out of the lines of a `Location` field.
///
/// Trusted: calls `Location::parse_header`, which takes exactly one line that
/// is not empty, checks that it is UTF-8 and hands it out as text.
#[verifier::external_body]
fn parse_location(lines: &Vec<Vec<u8>>) -> (r: Option<String>)
    ensures
        r is Some <==> single_text(lines_of(*lines)) is Some,
        r matches Some(text) ==> single_text(lines_of(*lines)) == Some(text@),
{
    match Location::parse_header(&lines[..]) {
        Ok(Location(text)) => Some(text),
        Err(_) => None,
    }
}

/// Sets the `Location` field to `target`.
///
/// Trusted: calls `Headers::set` with hyper's `Location`, which hyper renders
/// as the text itself, on one line in which line breaks have become spaces.
#[verifier::external_body]
fn set_location(headers: &mut Headers, target: String)
    ensures
        header_lines(*final(headers)) == header_lines(*old(headers)).insert(
            field_key("Location"@),
            seq![flat_line(encode_utf8(target@))],
        ),
        lines_readable(*old(headers)) ==> lines_readable(*final(headers)),
{
    headers.set(Location(target))
}

/// Tells whether every byte of `line` is ASCII.
fn line_is_ascii(line: &Vec<u8>) -> (r: bool)
    ensures
        r == is_ascii_line(line@),
{
    let mut i: usize = 0;
    while i < line.len()
        invariant
            i <= line.len(),
            forall|j: int| 0 <= j < i ==> line@[j] < 128,
        decreases line.len() - i,
    {
        if line[i] >= 128 {
            return false;
        }
        i += 1;
    }
    true
}

/// The part of a `Content-Type` line that names the media type: what stands
/// before the first semicolon, or the whole line where it has none. The
/// parameters behind it play no part in what a body is.
pub open spec fn media_part(line: Seq<u8>) -> Seq<u8>
    decreases line.len(),
{
    if line.len() == 0 || line[0] == 59 {
        Seq::empty()
    } else {
        seq![line[0]] + media_part(line.skip(1))
    }
}

/// Where no semicolon stands before index `end`, and the line ends there or
/// has one there, the media part is the line up to `end`.
proof fn lemma_media_part(line: Seq<u8>, end: int)
    requires
        0 <= end <= line.len(),
        forall|j: int| 0 <= j < end ==> line[j] != 59,
        end == line.len() || line[end] == 59,
    ensures
        media_part(line) == line.take(end),
    decreases end,
{
    if end == 0 {
        assert(line.take(0) =~= Seq::<u8>::empty());
    } else {
        let rest = line.skip(1);
        assert forall|j: int| 0 <= j < end - 1 implies rest[j] != 59 by {
            assert(rest[j] == line[j + 1]);
        }
        lemma_media_part(rest, end - 1);
        assert(seq![line[0]] + rest.take(end - 1) =~= line.take(end));
    }
}

/// Cuts the media part out of a `Content-Type` line.
pub fn media_part_of(line: &Vec<u8>) -> (part: Vec<u8>)
    ensures
        part@ == media_part(line@),
{
    let mut part: Vec<u8> = Vec::new();
    let mut i: usize = 0;
    while i < line.len() && line[i] != 59
        invariant
            i <= line.len(),
            part@ == line@.take(i as int),
            forall|j: int| 0 <= j < i ==> line@[j] != 59,
        decreases line.len() - i,
    {
        assert(line@.take(i as int).push(line@[i as int]) =~= line@.take(i + 1));
        part.push(line[i]);
        i += 1;
    }
    proof {
        lemma_media_part(line@, i as int);
    }
    part
}

/// Tells whether a media type, given by the names of its type and subtype, is
/// HTML.
pub fn is_html_type(top: &str, sub: &str) -> (r: bool)
    ensures
        r == (top@ == "text"@ && sub@ == "html"@),
{
    same_text(top, "text") && same_text(sub, "html")
}

/// The lines of a `Content-Type` field announce HTML: there is one line, its
/// media part is ASCII, and hyper reads the media type `text/html` out of that
/// part. What follows the first semicolon is not looked at.
pub open spec fn html_lines(lines: Seq<Seq<u8>>) -> bool {
    &&& lines.len() == 1
    &&& is_ascii_line(media_part(lines[0]))
    &&& media_type_of(seq![media_part(lines[0])]) == Some(("text"@, "html"@))
}

/// The header set announces an HTML body.
pub open spec fn html_content(fields: Map<Seq<char>, Seq<Seq<u8>>>) -> bool {
    fields.dom().contains(field_key("Content-Type"@)) && html_lines(
        fields[field_key("Content-Type"@)],
    )
}

/// Tells whether a response with these headers carries HTML. The type and the
/// subtype decide; parameters such as a charset are left out of it.
pub fn is_html(headers: &Headers) -> (r: bool)
    requires
        lines_readable(*headers),
    ensures
        r == html_content(header_lines(*headers)),
{
    match field_lines(headers, "Content-Type") {
        None => false,
        Some(lines) => {
            if lines.len() != 1 {
                return false;
            }
            assert(lines_of(lines)[0] == lines@[0]@);
            let part = media_part_of(&lines[0]);
            if !line_is_ascii(&part) {
                return false;
            }
            let mut one: Vec<Vec<u8>> = Vec::new();
            one.push(part);
            assert(lines_of(one) =~= seq![media_part(lines@[0]@)]);
            match parse_content_type(&one) {
                Some(names) => is_html_type(names.0.as_str(), names.1.as_str()),
                None => false,
            }
        },
    }
}

/// The way the body of a response with these headers goes back: rewritten
/// where the headers announce HTML, copied through otherwise.
pub fn body_mode(headers: &Headers) -> (mode: BodyMode)
    requires
        lines_readable(*headers),
    ensures
        mode == (if html_content(header_lines(*headers)) {
            BodyMode::Rewritable
        } else {
            BodyMode::Streamed
        }),
{
    if is_html(headers) {
        BodyMode::Rewritable
    } else {
        BodyMode::Streamed
    }
}

/// A redirect target as the client gets it: the upstream host replaced by the
/// proxy's own address, then every secure scheme prefix by the plain one.
pub open spec fn rewritten_location(location: Seq<char>, host: Seq<char>) -> Seq<char> {
    replace_all(replace_all(location, host, local_address()), "https://"@, "http://"@)
}

/// Rewrites a redirect target so that the client comes back to the proxy.
pub fn rewrite_location(location: &str, proxy: &ProxyTarget) -> (out: String)
    ensures
        out@ == rewritten_location(location@, proxy.host@),
{
    let local = replace_text(location, proxy.host.as_str(), local_addr());
    replace_text(local.as_str(), "https://", "http://")
}

/// The redirect target that a header set holds, if it holds one.
pub open spec fn location_of(fields: Map<Seq<char>, Seq<Seq<u8>>>) -> Option<Seq<char>> {
    if fields.dom().contains(field_key("Location"@)) {
        single_text(fields[field_key("Location"@)])
    } else {
        None
    }
}

/// The fields of a response as the client gets them.
///
/// A redirect target is rewritten. The two fields that would keep a browser
/// from running the script that the proxy puts into a page are taken out.
/// `Content-Length` is taken out where the body is rewritten, and only there.
pub open spec fn inbound_lines(
    fields: Map<Seq<char>, Seq<Seq<u8>>>,
    mode: BodyMode,
    host: Seq<char>,
) -> Map<Seq<char>, Seq<Seq<u8>>> {
    let relocated = match location_of(fields) {
        Some(location) => fields.insert(
            field_key("Location"@),
            seq![flat_line(encode_utf8(rewritten_location(location, host)))],
        ),
        None => fields,
    };
    let open = relocated.remove(field_key("Content-Security-Policy"@)).remove(
        field_key("X-XSS-Protection"@),
    );
    if mode == BodyMode::Rewritable {
        open.remove(field_key("Content-Length"@))
    } else {
        open
    }
}

/// Turns the headers of an upstream response into those the client gets, and
/// returns the redirect target that was found, as it was before rewriting.
pub fn cleanup_response_headers(headers: &mut Headers, mode: BodyMode, proxy: &ProxyTarget) -> (found:
    Option<String>)
    requires
        lines_readable(*old(headers)),
    ensures
        header_lines(*final(headers)) == inbound_lines(
            header_lines(*old(headers)),
            mode,
            proxy.host@,
        ),
        lines_readable(*final(headers)),
        found is Some <==> location_of(header_lines(*old(headers))) is Some,
        found matches Some(text) ==> location_of(header_lines(*old(headers))) == Some(text@),
{
    let found = match field_lines(headers, "Location") {
        Some(lines) => parse_location(&lines),
        None => None,
    };
    match &found {
        Some(location) => {
            set_location(headers, rewrite_location(location.as_str(), proxy));
        },
        None => {},
    }
    remove_field(headers, "Content-Security-Policy");
    remove_field(headers, "X-XSS-Protection");
    match mode {
        BodyMode::Rewritable => {
            remove_field(headers, "Content-Length");
        },
        BodyMode::Streamed => {},
    }
    found
}

/// The lines of the header set made of `fields`, taken in order: where a name
/// comes more than once, without regard to ASCII case, the lines given last
/// stay.
pub open spec fn lines_from(fields: Seq<(String, Vec<Vec<u8>>)>) -> Map<Seq<char>, Seq<Seq<u8>>>
    decreases fields.len(),
{
    if fields.len() == 0 {
        no_lines()
    } else {
        lines_from(fields.drop_last()).insert(
            field_key(fields.last().0@),
            lines_of(fields.last().1),
        )
    }
}

/// Makes a header set of field names and their lines.
pub fn headers_from_lines(fields: Vec<(String, Vec<Vec<u8>>)>) -> (headers: Headers)
    ensures
        header_lines(headers) == lines_from(fields@),
        lines_readable(headers),
{
    let ghost all = fields@;
    let mut rest = fields;
    let mut headers = empty_headers();
    let ghost mut done: int = 0;
    while rest.len() > 0
        invariant
            0 <= done <= all.len(),
            rest@ == all.skip(done),
            header_lines(headers) == lines_from(all.take(done)),
            lines_readable(headers),
        decreases rest.len(),
    {
        let field = rest.remove(0);
        proof {
            assert(field == all[done]);
            assert(all.take(done + 1).drop_last() =~= all.take(done));
            assert(all.take(done + 1).last() == all[done]);
            assert(all.skip(done).remove(0) =~= all.skip(done + 1));
            done = done + 1;
        }
        set_lines(&mut headers, field.0, field.1);
    }
    assert(all.take(done) =~= all);
    headers
}

/// The keys of the fields that the proxy touches, written out.
pub proof fn lemma_field_keys()
    ensures
        field_key("Host"@) == "host"@,
        field_key("Referer"@) == "referer"@,
        field_key("Upgrade"@) == "upgrade"@,
        field_key("Accept-Encoding"@) == "accept-encoding"@,
        field_key("Location"@) == "location"@,
        field_key("Content-Type"@) == "content-type"@,
        field_key("Content-Length"@) == "content-length"@,
        field_key("Content-Security-Policy"@) == "content-security-policy"@,
        field_key("X-XSS-Protection"@) == "x-xss-protection"@,
{
    reveal_strlit("Host");
    reveal_strlit("host");
    reveal_strlit("Referer");
    reveal_strlit("referer");
    reveal_strlit("Upgrade");
    reveal_strlit("upgrade");
    reveal_strlit("Accept-Encoding");
    reveal_strlit("accept-encoding");
    reveal_strlit("Location");
    reveal_strlit("location");
    reveal_strlit("Content-Type");
    reveal_strlit("content-type");
    reveal_strlit("Content-Length");
    reveal_strlit("content-length");
    reveal_strlit("Content-Security-Policy");
    reveal_strlit("content-security-policy");
    reveal_strlit("X-XSS-Protection");
    reveal_strlit("x-xss-protection");
    assert(field_key("Host"@) =~= "host"@);
    assert(field_key("Referer"@) =~= "referer"@);
    assert(field_key("Upgrade"@) =~= "upgrade"@);
    assert(field_key("Accept-Encoding"@) =~= "accept-encoding"@);
    assert(field_key("Location"@) =~= "location"@);
    assert(field_key("Content-Type"@) =~= "content-type"@);
    assert(field_key("Content-Length"@) =~= "content-length"@);
    assert(field_key("Content-Security-Policy"@) =~= "content-security-policy"@);
    assert(field_key("X-XSS-Protection"@) =~= "x-xss-protection"@);
}

/// Whatever a request brings, what goes upstream has no `Referer`, no
/// `Upgrade` and no `Accept-Encoding`, names the upstream site as its `Host`,
/// and holds every other field as it came.
pub proof fn law_outbound_fields(fields: Map<Seq<char>, Seq<Seq<u8>>>, host: Seq<char>)
    ensures
        !outbound_lines(fields, host).dom().contains("referer"@),
        !outbound_lines(fields, host).dom().contains("upgrade"@),
        !outbound_lines(fields, host).dom().contains("accept-encoding"@),
        outbound_lines(fields, host).dom().contains("host"@),
        outbound_lines(fields, host)["host"@] == seq![flat_line(encode_utf8(host))],
        forall|key: Seq<char>|
            key != "referer"@ && key != "upgrade"@ && key != "accept-encoding"@ && key != "host"@
                ==> (#[trigger] outbound_lines(fields, host).dom().contains(key)
                <==> fields.dom().contains(key)) && (fields.dom().contains(key)
                ==> outbound_lines(fields, host)[key] == fields[key]),
{
    lemma_field_keys();
    reveal_strlit("host");
    reveal_strlit("referer");
    reveal_strlit("upgrade");
    reveal_strlit("accept-encoding");
    assert("host"@.len() == 4);
    assert("referer"@.len() == 7);
    assert("upgrade"@.len() == 7);
    assert("accept-encoding"@.len() == 15);
}

/// The secure scheme prefix and the proxy's address share no character in a
/// way that would let one run into the other: where both stand in a text,
/// they stand apart.
proof fn lemma_scheme_apart(text: Seq<char>, at: int, j: int)
    requires
        occurs_at(text, local_address(), at),
        occurs_at(text, "https://"@, j),
    ensures
        j + 8 <= at || at + 14 <= j,
{
    reveal_strlit("localhost:8081");
    reveal_strlit("https://");
    let word = local_address();
    let prefix = "https://"@;
    assert(word.len() == 14 && prefix.len() == 8);
    if !(j + 8 <= at || at + 14 <= j) {
        if j + 7 < at + 14 {
            let k = j + 7 - at;
            assert(text.subrange(j, j + 8)[7] == text[j + 7]);
            assert(text.subrange(at, at + 14)[k] == text[j + 7]);
            assert(prefix[7] == '/');
            assert(word[0] != '/' && word[1] != '/' && word[2] != '/' && word[3] != '/' && word[4]
                != '/' && word[5] != '/' && word[6] != '/' && word[7] != '/' && word[8] != '/'
                && word[9] != '/' && word[10] != '/' && word[11] != '/' && word[12] != '/'
                && word[13] != '/');
            assert(false);
        } else {
            let k = j - at;
            assert(text.subrange(j, j + 8)[0] == text[j]);
            assert(text.subrange(at, at + 14)[k] == text[j]);
            assert(prefix[0] == 'h');
            assert(word[7] != 'h' && word[8] != 'h' && word[9] != 'h' && word[10] != 'h'
                && word[11] != 'h' && word[12] != 'h' && word[13] != 'h');
            assert(false);
        }
    }
}

/// A redirect that begins with the secure scheme and holds the upstream host
/// comes back to the proxy: what the client gets begins with the plain scheme
/// and holds the proxy's address where the host stood.
///
/// This is stated for a host that does not occur within the scheme prefix,
/// that is, not before index 8 of the redirect target. A host such as `s`, or
/// an empty one, occurs there; the prefix is then rewritten with it and the
/// result begins with neither scheme.
pub proof fn law_redirect_comes_back(location: Seq<char>, host: Seq<char>)
    requires
        starts_with(location, "https://"@),
        occurs_in(location, host),
        forall|j: int| 0 <= j < 8 ==> !occurs_at(location, host, j),
    ensures
        starts_with(rewritten_location(location, host), "http://"@),
        occurs_in(rewritten_location(location, host), local_address()),
{
    reveal_strlit("https://");
    reveal_strlit("http://");
    let secure = "https://"@;
    let plain = "http://"@;
    let local = local_address();
    assert(secure.len() == 8 && plain.len() == 7);
    if host.len() == 0 {
        assert(location.subrange(0, 0) =~= host);
        assert(occurs_at(location, host, 0));
    }
    let moved = replace_all(location, host, local);
    lemma_replace_keeps_prefix(location, host, local, 8);
    assert(moved.subrange(0, 8) =~= location.subrange(0, 8));
    assert(occurs_at(moved, secure, 0));
    let out = replace_all(moved, secure, plain);
    assert(out == plain + replace_all(moved.skip(8), secure, plain));
    assert(out.subrange(0, 7) =~= plain);

    lemma_replace_puts_in(location, host, local);
    let at = choose|at: int| occurs_at(moved, local, at);
    assert forall|j: int| #[trigger] occurs_at(moved, secure, j) implies j + secure.len() <= at
        || at + local.len() <= j by {
        reveal_strlit("localhost:8081");
        lemma_scheme_apart(moved, at, j);
    }
    lemma_replace_keeps_apart(moved, secure, plain, local, at);
}

/// A redirect to the upstream site itself, over the secure scheme, comes back
/// as a redirect to the proxy over the plain scheme: what the client gets
/// begins with `http://` and the proxy's address.
///
/// As in [`law_redirect_comes_back`], the host must not occur within the
/// scheme prefix.
pub proof fn law_redirect_to_site_comes_back(location: Seq<char>, host: Seq<char>)
    requires
        starts_with(location, "https://"@ + host),
        forall|j: int| 0 <= j < 8 ==> !occurs_at(location, host, j),
    ensures
        starts_with(rewritten_location(location, host), "http://"@ + local_address()),
{
    reveal_strlit("https://");
    reveal_strlit("http://");
    reveal_strlit("localhost:8081");
    let secure = "https://"@;
    let plain = "http://"@;
    let local = local_address();
    assert(secure.len() == 8 && plain.len() == 7 && local.len() == 14);
    assert(location.subrange(0, 8) =~= (secure + host).subrange(0, 8));
    assert(location.subrange(0, 8) =~= secure);
    if host.len() == 0 {
        assert(location.subrange(0, 0) =~= host);
        assert(occurs_at(location, host, 0));
    }
    let tail = location.skip(8);
    assert(tail.subrange(0, host.len() as int) =~= (secure + host).subrange(
        8,
        8 + host.len() as int,
    ));
    assert(tail.subrange(0, host.len() as int) =~= host);
    assert(occurs_at(tail, host, 0));
    lemma_replace_keeps_prefix(location, host, local, 8);
    let moved = replace_all(location, host, local);
    let behind = replace_all(tail.skip(host.len() as int), host, local);
    assert(moved == location.take(8) + (local + behind));
    assert(moved.subrange(0, 8) =~= secure);
    assert(occurs_at(moved, secure, 0));
    let rest = moved.skip(8);
    assert(rest =~= local + behind);
    assert(rest.subrange(0, 14) =~= local);
    assert(occurs_at(rest, local, 0));
    assert forall|j: int| 0 <= j < 14 implies !occurs_at(rest, secure, j) by {
        if occurs_at(rest, secure, j) {
            lemma_scheme_apart(rest, 0, j);
        }
    }
    lemma_replace_keeps_prefix(rest, secure, plain, 14);
    let out = replace_all(moved, secure, plain);
    assert(out == plain + replace_all(rest, secure, plain));
    assert(out.subrange(0, 21) =~= plain + local);
}

/// What the client gets of a response's headers never holds a
/// `Content-Security-Policy` or an `X-XSS-Protection`. `Content-Length` is
/// gone where the body is rewritten; where the body is copied through, it
/// is there exactly when upstream sent it, with the lines upstream sent.
pub proof fn law_inbound_fields(fields: Map<Seq<char>, Seq<Seq<u8>>>, mode: BodyMode, host: Seq<char>)
    ensures
        !inbound_lines(fields, mode, host).dom().contains("content-security-policy"@),
        !inbound_lines(fields, mode, host).dom().contains("x-xss-protection"@),
        mode == BodyMode::Rewritable ==> !inbound_lines(fields, mode, host).dom().contains(
            "content-length"@,
        ),
        mode == BodyMode::Streamed ==> (inbound_lines(fields, mode, host).dom().contains(
            "content-length"@,
        ) <==> fields.dom().contains("content-length"@)),
        mode == BodyMode::Streamed && fields.dom().contains("content-length"@) ==> inbound_lines(
            fields,
            mode,
            host,
        )["content-length"@] == fields["content-length"@],
{
    lemma_field_keys();
    reveal_strlit("location");
    reveal_strlit("content-length");
    reveal_strlit("content-security-policy");
    reveal_strlit("x-xss-protection");
    assert("location"@.len() == 8);
    assert("content-length"@.len() == 14);
    assert("content-security-policy"@.len() == 23);
    assert("x-xss-protection"@.len() == 16);
}

} // verus!
