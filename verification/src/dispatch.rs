//! The life of one connection, as a state machine, and the envelopes that
//! cross it.
//!
//! The machine decides; whoever owns the socket performs. Each thing that
//! happens on the connection is handed to `step` as an event, and `step`
//! answers with the next state and the action to perform.

use vstd::prelude::*;
use vstd::string::*;

verus! {

/// An inbound envelope: a routing key and an opaque payload.
pub struct IncomingMessage {
    pub path: String,
    pub data: String,
}

/// An outbound envelope: one message that says what came of the processing.
pub struct ResponseMessage {
    pub message: String,
}

/// Where a connection stands.
#[derive(Debug, PartialEq, Eq, Structural, Clone, Copy)]
pub enum ConnectionState {
    /// Accepted, the handshake not yet done.
    Accepted,
    /// Waiting for the next inbound message.
    Reading,
    /// Answering an inbound message.
    Processing,
    /// Releasing the connection's two halves.
    Closing,
    /// Gone.
    Closed,
}

/// What can happen on a connection.
pub enum Event {
    /// The handshake completed.
    Opened,
    /// A text message arrived and was read as an envelope.
    Envelope(IncomingMessage),
    /// A text message arrived that is no envelope.
    Malformed,
    /// A message arrived that is not text.
    OtherFrame,
    /// The action asked for while processing was performed, or given up.
    Completed,
    /// The transport failed.
    TransportError,
    /// The peer closed the connection.
    PeerClosed,
    /// The connection's two halves were released.
    Released,
}

/// What the owner of the socket is asked to do.
pub enum Action {
    /// Nothing.
    Nothing,
    /// Send this envelope to the peer.
    Reply(ResponseMessage),
    /// Tell the operator that a message was malformed; send nothing.
    Diagnose,
    /// Release the connection's two halves.
    Release,
}

/// An action with its text as a sequence of characters.
pub enum ActionView {
    Nothing,
    Reply(Seq<char>),
    Diagnose,
    Release,
}

impl View for Action {
    type V = ActionView;

    open spec fn view(&self) -> ActionView {
        match self {
            Action::Nothing => ActionView::Nothing,
            Action::Reply(m) => ActionView::Reply(m.message@),
            Action::Diagnose => ActionView::Diagnose,
            Action::Release => ActionView::Release,
        }
    }
}

/// The answer of the machine to one event.
pub struct Transition {
    pub next: ConnectionState,
    pub action: Action,
}

/// Whether an event ends the connection.
pub open spec fn is_closing_event(event: Event) -> bool {
    event is TransportError || event is PeerClosed
}

/// The state that follows `state` on `event`.
///
/// A closed connection stays closed. A transport error or the peer's close
/// starts the closing from any state before it, and `Released` ends it. The
/// handshake leads to reading; an envelope or a malformed text leads from
/// reading to processing, and `Completed` leads back. Any other event is
/// ignored.
pub open spec fn next_state(state: ConnectionState, event: Event) -> ConnectionState {
    match state {
        ConnectionState::Closed => ConnectionState::Closed,
        ConnectionState::Closing => if event is Released {
            ConnectionState::Closed
        } else {
            ConnectionState::Closing
        },
        ConnectionState::Accepted => if is_closing_event(event) {
            ConnectionState::Closing
        } else if event is Opened {
            ConnectionState::Reading
        } else {
            ConnectionState::Accepted
        },
        ConnectionState::Reading => if is_closing_event(event) {
            ConnectionState::Closing
        } else if event is Envelope || event is Malformed {
            ConnectionState::Processing
        } else {
            ConnectionState::Reading
        },
        ConnectionState::Processing => if is_closing_event(event) {
            ConnectionState::Closing
        } else if event is Completed {
            ConnectionState::Reading
        } else {
            ConnectionState::Processing
        },
    }
}

/// The message that answers an envelope.
pub open spec fn response_text(path: Seq<char>, data: Seq<char>) -> Seq<char> {
    "Processed path: '"@ + path + "', data: '"@ + data + "'"@
}

/// The action that `state` asks for on `event`: a release where the closing
/// starts, a reply to an envelope and a diagnosis of a malformed text while
/// reading, and nothing otherwise.
pub open spec fn expected_action(state: ConnectionState, event: Event) -> ActionView {
    match state {
        ConnectionState::Closed | ConnectionState::Closing => ActionView::Nothing,
        ConnectionState::Reading => match event {
            Event::TransportError | Event::PeerClosed => ActionView::Release,
            Event::Envelope(m) => ActionView::Reply(response_text(m.path@, m.data@)),
            Event::Malformed => ActionView::Diagnose,
            _ => ActionView::Nothing,
        },
        _ => if is_closing_event(event) {
            ActionView::Release
        } else {
            ActionView::Nothing
        },
    }
}

/// The event that a text message stands for: its envelope where it was read
/// as one, and a malformed text otherwise.
pub fn text_event(parsed: Option<IncomingMessage>) -> (e: Event)
    ensures
        parsed is Some ==> e == Event::Envelope(parsed->0),
        parsed is None ==> e == Event::Malformed,
{
    match parsed {
        Some(m) => Event::Envelope(m),
        None => Event::Malformed,
    }
}

/// Writes the message that answers an envelope.
pub fn format_response(path: &str, data: &str) -> (r: String)
    ensures
        r@ == response_text(path@, data@),
{
    let mut r = String::from_str("Processed path: '");
    r.append(path);
    r.append("', data: '");
    r.append(data);
    r.append("'");
    r
}

/// Answers one event: the next state and the action to perform.
pub fn step(state: ConnectionState, event: Event) -> (t: Transition)
    ensures
        t.next == next_state(state, event),
        t.action@ == expected_action(state, event),
{
    match state {
        ConnectionState::Closed => Transition { next: ConnectionState::Closed, action: Action::Nothing },
        ConnectionState::Closing => match event {
            Event::Released => Transition { next: ConnectionState::Closed, action: Action::Nothing },
            _ => Transition { next: ConnectionState::Closing, action: Action::Nothing },
        },
        ConnectionState::Accepted => match event {
            Event::TransportError | Event::PeerClosed => Transition {
                next: ConnectionState::Closing,
                action: Action::Release,
            },
            Event::Opened => Transition { next: ConnectionState::Reading, action: Action::Nothing },
            _ => Transition { next: ConnectionState::Accepted, action: Action::Nothing },
        },
        ConnectionState::Reading => match event {
            Event::TransportError | Event::PeerClosed => Transition {
                next: ConnectionState::Closing,
                action: Action::Release,
            },
            Event::Envelope(m) => {
                let message = format_response(m.path.as_str(), m.data.as_str());
                Transition {
                    next: ConnectionState::Processing,
                    action: Action::Reply(ResponseMessage { message }),
                }
            },
            Event::Malformed => Transition {
                next: ConnectionState::Processing,
                action: Action::Diagnose,
            },
            _ => Transition { next: ConnectionState::Reading, action: Action::Nothing },
        },
        ConnectionState::Processing => match event {
            Event::TransportError | Event::PeerClosed => Transition {
                next: ConnectionState::Closing,
                action: Action::Release,
            },
            Event::Completed => Transition { next: ConnectionState::Reading, action: Action::Nothing },
            _ => Transition { next: ConnectionState::Processing, action: Action::Nothing },
        },
    }
}

/// The JSON string literal that `serde_json::to_string` writes for a text.
pub uninterp spec fn json_string_literal(text: Seq<char>) -> Seq<char>;

/// Writes a text as a JSON string literal, quotes and escapes included.
///
/// Calls `serde_json::to_string` on the text. The contract claims that the
/// call succeeds on every text: for a text the serializer only appends bytes
/// to a vector, which cannot fail, and a text holds no map whose keys could
/// be refused. It gives the literal a name and claims that the same text
/// yields the same literal.
#[verifier::external_body]
fn json_string(text: &str) -> (r: Option<String>)
    ensures
        r is Some,
        r->0@ == json_string_literal(text@),
{
    serde_json::to_string(text).ok()
}

/// An outbound envelope around a message that is already a JSON string
/// literal: an object with the one member `message`.
pub open spec fn framed_response(literal: Seq<char>) -> Seq<char> {
    "{\"message\":"@ + literal + "}"@
}

/// Frames a JSON string literal as an outbound envelope.
pub fn frame_response(literal: &str) -> (r: String)
    ensures
        r@ == framed_response(literal@),
{
    let mut r = String::from_str("{\"message\":");
    r.append(literal);
    r.append("}");
    r
}

/// Writes an outbound envelope as the text that goes on the wire: the
/// message as a JSON string literal, framed as the one member of an object.
/// Every message can be written so.
pub fn encode_response(response: &ResponseMessage) -> (r: Option<String>)
    ensures
        r is Some,
        r->0@ == framed_response(json_string_literal(response.message@)),
{
    match json_string(response.message.as_str()) {
        Some(literal) => Some(frame_response(literal.as_str())),
        None => None,
    }
}

/// Only a transport error or the peer's close starts the closing, and only
/// the release of a closing connection closes it.
pub proof fn lemma_only_transport_closes(state: ConnectionState, event: Event)
    ensures
        next_state(state, event) == ConnectionState::Closing ==> state == ConnectionState::Closing
            || is_closing_event(event),
        next_state(state, event) == ConnectionState::Closed ==> state == ConnectionState::Closed
            || (state == ConnectionState::Closing && event is Released),
        state == ConnectionState::Closed ==> next_state(state, event) == ConnectionState::Closed,
{
}

/// The state a connection is in after a run of events, one after the other.
pub open spec fn state_after(state: ConnectionState, events: Seq<Event>) -> ConnectionState
    decreases events.len(),
{
    if events.len() == 0 {
        state
    } else {
        state_after(next_state(state, events[0]), events.drop_first())
    }
}

/// A connection that is open stays open through any run of events that holds
/// no transport error and no close by the peer, whatever else arrives and
/// however often a text is malformed.
pub proof fn lemma_open_until_transport_ends(state: ConnectionState, events: Seq<Event>)
    requires
        state != ConnectionState::Closing,
        state != ConnectionState::Closed,
        forall|i: int| 0 <= i < events.len() ==> !is_closing_event(#[trigger] events[i]),
    ensures
        state_after(state, events) != ConnectionState::Closing,
        state_after(state, events) != ConnectionState::Closed,
    decreases events.len(),
{
    if events.len() > 0 {
        let rest = events.drop_first();
        assert forall|i: int| 0 <= i < rest.len() implies !is_closing_event(
            #[trigger] rest[i],
        ) by {
            assert(rest[i] == events[i + 1]);
        }
        lemma_open_until_transport_ends(next_state(state, events[0]), rest);
    }
}

/// A malformed text does not close the connection: from reading it is
/// diagnosed without a reply, the machine is back in reading once that is
/// done, and an envelope that comes next is answered with its response.
pub proof fn lemma_malformed_keeps_connection(envelope: IncomingMessage)
    ensures
        next_state(ConnectionState::Reading, Event::Malformed) == ConnectionState::Processing,
        expected_action(ConnectionState::Reading, Event::Malformed) == ActionView::Diagnose,
        next_state(ConnectionState::Processing, Event::Completed) == ConnectionState::Reading,
        next_state(ConnectionState::Reading, Event::Envelope(envelope))
            == ConnectionState::Processing,
        expected_action(ConnectionState::Reading, Event::Envelope(envelope)) == ActionView::Reply(
            response_text(envelope.path@, envelope.data@),
        ),
{
}

} // verus!
