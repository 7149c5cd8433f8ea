//! Handing an upstream response back to the client.
//!
//! A page is read whole, rewritten and written behind a script tag; anything
//! else is copied through piece by piece. The caller does the reading and the
//! writing; [`relay_step`] tells it what comes next.

use crate::headers::{
    body_mode, cleanup_response_headers, header_lines, html_content, inbound_lines, lines_readable,
    location_of, BodyMode,
};
use hyper::header::Headers;
use crate::target::{local_addr, local_address, ProxyTarget};
use crate::text::{replace_all, replace_text};
use vstd::prelude::*;
use vstd::string::*;
use vstd::utf8::*;

verus! {

/// Why a response could not be relayed as a page.
#[derive(Clone, Copy, Debug, PartialEq, Eq, Structural)]
pub enum RelayError {
    /// The body of a page is not UTF-8 text.
    BodyNotText,
}

/// The script tag that goes in front of every page. It makes the browser
/// register the proxy's worker script and names the upstream site to it.
pub open spec fn script_tag(host: Seq<char>) -> Seq<char> {
    "<script>navigator.serviceWorker.register('/service-worker.js?site="@ + host
        + "');</script>"@
}

/// The script tag for the proxy's upstream site.
pub fn make_script_tag(proxy: &ProxyTarget) -> (tag: String)
    ensures
        tag@ == script_tag(proxy.host@),
{
    let mut tag = String::from_str(
        "<script>navigator.serviceWorker.register('/service-worker.js?site=",
    );
    tag.append(proxy.host.as_str());
    tag.append("');</script>");
    tag
}

/// The text of a page as the client gets it: every occurrence of the upstream
/// host replaced by the proxy's own address. The replacement is literal; it
/// knows nothing of markup.
pub open spec fn rewritten_text(text: Seq<char>, host: Seq<char>) -> Seq<char> {
    replace_all(text, host, local_address())
}

/// The body of a page as the client gets it, where the body is text.
pub open spec fn rewritten_body(body: Seq<u8>, host: Seq<char>) -> Option<Seq<u8>> {
    if valid_utf8(body) {
        Some(encode_utf8(rewritten_text(decode_utf8(body), host)))
    } else {
        None
    }
}

/// Takes bytes as text.
///
/// Trusted: calls `String::from_utf8`, which std documents as giving the
/// string that the bytes encode where they are valid UTF-8, and an error
/// otherwise.
#[verifier::external_body]
fn decode_text(bytes: Vec<u8>) -> (r: Option<String>)
    ensures
        r is Some <==> valid_utf8(bytes@),
        r matches Some(text) ==> text@ == decode_utf8(bytes@),
{
    match String::from_utf8(bytes) {
        Ok(text) => Some(text),
        Err(_) => None,
    }
}

/// Rewrites the body of a page. A body that is not text is refused: nothing
/// of it is handed on.
pub fn rewrite_body(body: Vec<u8>, proxy: &ProxyTarget) -> (r: Result<Vec<u8>, RelayError>)
    ensures
        r is Ok <==> valid_utf8(body@),
        r matches Ok(out) ==> rewritten_body(body@, proxy.host@) == Some(out@),
        r matches Err(e) ==> e == RelayError::BodyNotText,
{
    match decode_text(body) {
        Some(text) => {
            let out = replace_text(text.as_str(), proxy.host.as_str(), local_addr());
            Ok(out.as_str().as_bytes_vec())
        },
        None => Err(RelayError::BodyNotText),
    }
}

/// Where the relay of one response stands. Each state names the work that the
/// caller is doing; `Flush` and `End` carry whether all went well so far, and
/// `Done` whether the response went out whole.
#[derive(Clone, Copy, Debug, PartialEq, Eq, Structural)]
pub enum RelayState {
    /// The status line and the headers are being written.
    Head(BodyMode),
    /// The script tag is being written.
    Script,
    /// The whole upstream body is being read.
    Body,
    /// The rewritten body is being written.
    Page,
    /// The next piece of the upstream body is being read.
    Chunk,
    /// A piece of the upstream body is being written.
    Piece,
    /// What was written is being flushed.
    Flush(bool),
    /// The response is being ended.
    End(bool),
    /// Nothing is left to do.
    Done(bool),
}

/// What the caller reports when the work it was told to do is over.
#[derive(Debug, PartialEq, Eq)]
pub enum RelayEvent {
    /// The work is done; it brought no data.
    Finished,
    /// A read brought these bytes.
    Data(Vec<u8>),
    /// A read found the upstream body at its end.
    Eof,
    /// The work failed.
    Failed,
}

/// What the caller is told to do next.
#[derive(Debug, PartialEq, Eq)]
pub enum RelayAction {
    /// Write the status line and the headers.
    WriteHead,
    /// Write these bytes.
    Write(Vec<u8>),
    /// Read the upstream body to its end.
    ReadBody,
    /// Read the next piece of the upstream body.
    ReadChunk,
    /// Flush what was written.
    Flush,
    /// End the response.
    End,
    /// Stop: the relay is over.
    Stop,
}

/// An event, with the bytes it carries as a sequence.
pub enum EventView {
    Finished,
    Data(Seq<u8>),
    Eof,
    Failed,
}

/// An action, with the bytes it carries as a sequence.
pub enum ActionView {
    WriteHead,
    Write(Seq<u8>),
    ReadBody,
    ReadChunk,
    Flush,
    End,
    Stop,
}

impl View for RelayEvent {
    type V = EventView;

    open spec fn view(&self) -> EventView {
        match *self {
            RelayEvent::Finished => EventView::Finished,
            RelayEvent::Data(bytes) => EventView::Data(bytes@),
            RelayEvent::Eof => EventView::Eof,
            RelayEvent::Failed => EventView::Failed,
        }
    }
}

impl View for RelayAction {
    type V = ActionView;

    open spec fn view(&self) -> ActionView {
        match *self {
            RelayAction::WriteHead => ActionView::WriteHead,
            RelayAction::Write(bytes) => ActionView::Write(bytes@),
            RelayAction::ReadBody => ActionView::ReadBody,
            RelayAction::ReadChunk => ActionView::ReadChunk,
            RelayAction::Flush => ActionView::Flush,
            RelayAction::End => ActionView::End,
            RelayAction::Stop => ActionView::Stop,
        }
    }
}

/// The state that follows `state` when the caller reports `event`.
///
/// Work that goes well leads on: head, script tag, body and page for a page;
/// head, then piece after piece until the end, for anything else. A failure,
/// a body that is not text, or a report that does not fit the work lead to
/// `Flush(false)`. From `Flush` the way is `End`, then `Done`, whatever is
/// reported.
pub open spec fn next_state(state: RelayState, event: EventView, host: Seq<char>) -> RelayState {
    match (state, event) {
        (RelayState::Head(BodyMode::Rewritable), EventView::Finished) => RelayState::Script,
        (RelayState::Head(BodyMode::Streamed), EventView::Finished) => RelayState::Chunk,
        (RelayState::Script, EventView::Finished) => RelayState::Body,
        (RelayState::Body, EventView::Data(body)) => if valid_utf8(body) {
            RelayState::Page
        } else {
            RelayState::Flush(false)
        },
        (RelayState::Page, EventView::Finished) => RelayState::Flush(true),
        (RelayState::Chunk, EventView::Data(_)) => RelayState::Piece,
        (RelayState::Chunk, EventView::Eof) => RelayState::Flush(true),
        (RelayState::Piece, EventView::Finished) => RelayState::Chunk,
        (RelayState::Flush(well), e) => RelayState::End(well && e is Finished),
        (RelayState::End(well), e) => RelayState::Done(well && e is Finished),
        (RelayState::Done(well), _) => RelayState::Done(well),
        _ => RelayState::Flush(false),
    }
}

/// The work of a state: what the caller is told to do on entering it.
pub open spec fn work_of(state: RelayState) -> ActionView
    recommends
        !(state is Script) && !(state is Page) && !(state is Piece),
{
    match state {
        RelayState::Head(_) => ActionView::WriteHead,
        RelayState::Body => ActionView::ReadBody,
        RelayState::Chunk => ActionView::ReadChunk,
        RelayState::Flush(_) => ActionView::Flush,
        RelayState::End(_) => ActionView::End,
        _ => ActionView::Stop,
    }
}

/// What the caller is told to do when it reports `event` in `state`: the work
/// of the state that follows, with the bytes to write where that is a write.
pub open spec fn next_action(state: RelayState, event: EventView, host: Seq<char>) -> ActionView {
    match next_state(state, event, host) {
        RelayState::Script => ActionView::Write(encode_utf8(script_tag(host))),
        RelayState::Page => ActionView::Write(rewritten_body(event->Data_0, host)->0),
        RelayState::Piece => ActionView::Write(event->Data_0),
        other => work_of(other),
    }
}

/// Begins the relay of a response whose body goes back in `mode`.
pub fn start_relay(mode: BodyMode) -> (first: (RelayState, RelayAction))
    ensures
        first.0 == RelayState::Head(mode),
        first.1@ == ActionView::WriteHead,
{
    (RelayState::Head(mode), RelayAction::WriteHead)
}

/// Takes the relay one step on: from the state and what the caller reports to
/// the next state and what the caller does next.
pub fn relay_step(state: RelayState, event: RelayEvent, proxy: &ProxyTarget) -> (next: (
    RelayState,
    RelayAction,
))
    ensures
        next.0 == next_state(state, event@, proxy.host@),
        next.1@ == next_action(state, event@, proxy.host@),
{
    match state {
        RelayState::Head(mode) => match event {
            RelayEvent::Finished => match mode {
                BodyMode::Rewritable => {
                    let tag = make_script_tag(proxy);
                    (RelayState::Script, RelayAction::Write(tag.as_str().as_bytes_vec()))
                },
                BodyMode::Streamed => (RelayState::Chunk, RelayAction::ReadChunk),
            },
            _ => (RelayState::Flush(false), RelayAction::Flush),
        },
        RelayState::Script => match event {
            RelayEvent::Finished => (RelayState::Body, RelayAction::ReadBody),
            _ => (RelayState::Flush(false), RelayAction::Flush),
        },
        RelayState::Body => match event {
            RelayEvent::Data(body) => match rewrite_body(body, proxy) {
                Ok(page) => (RelayState::Page, RelayAction::Write(page)),
                Err(_) => (RelayState::Flush(false), RelayAction::Flush),
            },
            _ => (RelayState::Flush(false), RelayAction::Flush),
        },
        RelayState::Page => match event {
            RelayEvent::Finished => (RelayState::Flush(true), RelayAction::Flush),
            _ => (RelayState::Flush(false), RelayAction::Flush),
        },
        RelayState::Chunk => match event {
            RelayEvent::Data(bytes) => (RelayState::Piece, RelayAction::Write(bytes)),
            RelayEvent::Eof => (RelayState::Flush(true), RelayAction::Flush),
            _ => (RelayState::Flush(false), RelayAction::Flush),
        },
        RelayState::Piece => match event {
            RelayEvent::Finished => (RelayState::Chunk, RelayAction::ReadChunk),
            _ => (RelayState::Flush(false), RelayAction::Flush),
        },
        RelayState::Flush(well) => match event {
            RelayEvent::Finished => (RelayState::End(well), RelayAction::End),
            _ => (RelayState::End(false), RelayAction::End),
        },
        RelayState::End(well) => match event {
            RelayEvent::Finished => (RelayState::Done(well), RelayAction::Stop),
            _ => (RelayState::Done(false), RelayAction::Stop),
        },
        RelayState::Done(well) => (RelayState::Done(well), RelayAction::Stop),
    }
}

/// The bytes that an action writes.
pub open spec fn written_by(action: ActionView) -> Seq<u8> {
    match action {
        ActionView::Write(bytes) => bytes,
        _ => Seq::empty(),
    }
}

/// The state a relay is in after the caller has reported `events`, one after
/// the other, beginning in `state`.
pub open spec fn state_after(state: RelayState, events: Seq<EventView>, host: Seq<char>) -> RelayState
    decreases events.len(),
{
    if events.len() == 0 {
        state
    } else {
        state_after(next_state(state, events[0], host), events.skip(1), host)
    }
}

/// All the bytes that the caller is told to write while it reports `events`,
/// one after the other, beginning in `state`.
pub open spec fn written_during(state: RelayState, events: Seq<EventView>, host: Seq<char>) -> Seq<u8>
    decreases events.len(),
{
    if events.len() == 0 {
        Seq::empty()
    } else {
        written_by(next_action(state, events[0], host)) + written_during(
            next_state(state, events[0], host),
            events.skip(1),
            host,
        )
    }
}

/// What the caller reports while it copies a body that comes in `chunks` and
/// nothing fails: each piece read, then written, and at last the end.
pub open spec fn copy_reports(chunks: Seq<Seq<u8>>) -> Seq<EventView>
    decreases chunks.len(),
{
    if chunks.len() == 0 {
        seq![EventView::Eof]
    } else {
        seq![EventView::Data(chunks[0]), EventView::Finished] + copy_reports(chunks.skip(1))
    }
}

/// The pieces of a body, one behind the other.
pub open spec fn joined(chunks: Seq<Seq<u8>>) -> Seq<u8>
    decreases chunks.len(),
{
    if chunks.len() == 0 {
        Seq::empty()
    } else {
        chunks[0] + joined(chunks.skip(1))
    }
}

/// A body that is copied through goes out as it came in: the bytes written
/// are the pieces read, in the order read, and nothing else. The relay then
/// stands before the flush with nothing gone wrong.
pub proof fn law_copy_is_verbatim(chunks: Seq<Seq<u8>>, host: Seq<char>)
    ensures
        written_during(RelayState::Chunk, copy_reports(chunks), host) == joined(chunks),
        state_after(RelayState::Chunk, copy_reports(chunks), host) == RelayState::Flush(true),
    decreases chunks.len(),
{
    let events = copy_reports(chunks);
    if chunks.len() == 0 {
        assert(events.skip(1) =~= Seq::<EventView>::empty());
        assert(written_during(RelayState::Flush(true), events.skip(1), host) =~= Seq::<u8>::empty());
        assert(written_during(RelayState::Chunk, events, host) =~= joined(chunks));
        assert(state_after(RelayState::Flush(true), events.skip(1), host) == RelayState::Flush(true));
    } else {
        let rest = copy_reports(chunks.skip(1));
        law_copy_is_verbatim(chunks.skip(1), host);
        assert(events[0] == EventView::Data(chunks[0]));
        assert(events.skip(1)[0] == EventView::Finished);
        assert(events.skip(1).skip(1) =~= rest);
        assert(written_during(RelayState::Piece, events.skip(1), host) =~= written_during(
            RelayState::Chunk,
            rest,
            host,
        ));
        assert(written_during(RelayState::Chunk, events, host) =~= chunks[0] + joined(
            chunks.skip(1),
        ));
        assert(state_after(RelayState::Piece, events.skip(1), host) == state_after(
            RelayState::Chunk,
            rest,
            host,
        ));
    }
}

/// The whole relay of a response that is copied through, from the head on,
/// writes exactly the upstream body.
pub proof fn law_streamed_round_trip(chunks: Seq<Seq<u8>>, host: Seq<char>)
    ensures
        written_during(
            RelayState::Head(BodyMode::Streamed),
            seq![EventView::Finished] + copy_reports(chunks),
            host,
        ) == joined(chunks),
{
    let events = seq![EventView::Finished] + copy_reports(chunks);
    law_copy_is_verbatim(chunks, host);
    assert(events.skip(1) =~= copy_reports(chunks));
    assert(written_during(RelayState::Head(BodyMode::Streamed), events, host) =~= joined(chunks));
}

/// The relay of a page whose body is text writes the script tag and behind it
/// the rewritten body; where the body is not text it writes the script tag
/// alone and goes on to end the response as failed.
pub proof fn law_page_is_tagged(body: Seq<u8>, host: Seq<char>)
    ensures
        valid_utf8(body) ==> written_during(
            RelayState::Head(BodyMode::Rewritable),
            seq![EventView::Finished, EventView::Finished, EventView::Data(body), EventView::Finished],
            host,
        ) == encode_utf8(script_tag(host)) + rewritten_body(body, host)->0,
        !valid_utf8(body) ==> written_during(
            RelayState::Head(BodyMode::Rewritable),
            seq![EventView::Finished, EventView::Finished, EventView::Data(body)],
            host,
        ) == encode_utf8(script_tag(host)),
        !valid_utf8(body) ==> state_after(
            RelayState::Head(BodyMode::Rewritable),
            seq![EventView::Finished, EventView::Finished, EventView::Data(body)],
            host,
        ) == RelayState::Flush(false),
{
    reveal_with_fuel(written_during, 6);
    reveal_with_fuel(state_after, 6);
    let tag = encode_utf8(script_tag(host));
    let e4 = seq![EventView::Finished, EventView::Finished, EventView::Data(body), EventView::Finished];
    let e3 = seq![EventView::Finished, EventView::Finished, EventView::Data(body)];
    assert(e4.skip(1) =~= seq![EventView::Finished, EventView::Data(body), EventView::Finished]);
    assert(e4.skip(1).skip(1) =~= seq![EventView::Data(body), EventView::Finished]);
    assert(e4.skip(1).skip(1).skip(1) =~= seq![EventView::Finished]);
    assert(e4.skip(1).skip(1).skip(1).skip(1) =~= Seq::<EventView>::empty());
    assert(e3.skip(1) =~= seq![EventView::Finished, EventView::Data(body)]);
    assert(e3.skip(1).skip(1) =~= seq![EventView::Data(body)]);
    assert(e3.skip(1).skip(1).skip(1) =~= Seq::<EventView>::empty());
    if valid_utf8(body) {
        assert(written_during(RelayState::Head(BodyMode::Rewritable), e4, host) =~= tag
            + rewritten_body(body, host)->0);
    } else {
        assert(written_during(RelayState::Head(BodyMode::Rewritable), e3, host) =~= tag);
    }
}

/// Every relay ends: once a failure is reported, whatever the state, two more
/// reports at most bring the relay to `Done`; and from the flush on the
/// caller is told to end the response, then to stop, whatever it reports.
pub proof fn law_relay_ends(
    state: RelayState,
    first: EventView,
    second: EventView,
    host: Seq<char>,
)
    ensures
        next_state(state, EventView::Failed, host) is Flush || next_state(
            state,
            EventView::Failed,
            host,
        ) is End || next_state(state, EventView::Failed, host) is Done,
        next_state(
            next_state(next_state(state, EventView::Failed, host), first, host),
            second,
            host,
        ) is Done,
        state is Flush ==> next_action(state, first, host) == ActionView::End && next_action(
            next_state(state, first, host),
            second,
            host,
        ) == ActionView::Stop,
        !(state is Done) ==> !(next_state(state, EventView::Failed, host) matches RelayState::Done(
            true,
        )),
{
}

/// The way a body goes back, as the headers of the upstream response have it.
pub open spec fn mode_of(fields: Map<Seq<char>, Seq<Seq<u8>>>) -> BodyMode {
    if html_content(fields) {
        BodyMode::Rewritable
    } else {
        BodyMode::Streamed
    }
}

/// How one upstream response is handed back: what the head of the response to
/// the client holds, and where the relay of the body begins.
#[derive(Debug)]
pub struct ResponsePlan {
    /// The status, as upstream gave it.
    pub status: u16,
    /// The headers the client gets.
    pub headers: Headers,
    /// How the body goes back.
    pub mode: BodyMode,
    /// The redirect target that upstream named, before it was rewritten.
    pub redirect: Option<String>,
    /// The state in which the relay begins; its work is to write the head.
    pub state: RelayState,
}

/// Plans the response to the client from the status and the headers of the
/// upstream response. The body mode is chosen once, here, and both the
/// headers and the relay go by it.
pub fn send_response(status: u16, upstream: Headers, proxy: &ProxyTarget) -> (plan: ResponsePlan)
    requires
        lines_readable(upstream),
    ensures
        plan.status == status,
        plan.mode == mode_of(header_lines(upstream)),
        header_lines(plan.headers) == inbound_lines(
            header_lines(upstream),
            mode_of(header_lines(upstream)),
            proxy.host@,
        ),
        lines_readable(plan.headers),
        plan.redirect is Some <==> location_of(header_lines(upstream)) is Some,
        plan.redirect matches Some(text) ==> location_of(header_lines(upstream)) == Some(text@),
        plan.state == RelayState::Head(plan.mode),
{
    let mut headers = upstream;
    let mode = body_mode(&headers);
    let redirect = cleanup_response_headers(&mut headers, mode, proxy);
    ResponsePlan { status, headers, mode, redirect, state: RelayState::Head(mode) }
}

} // verus!
