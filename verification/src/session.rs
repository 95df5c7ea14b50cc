//! The session loop's decisions: how each event from the network stream or
//! the local line queue moves the session between states, and which output
//! action it calls for. The loop itself performs the waiting and the I/O and
//! feeds every event through these functions.

use vstd::prelude::*;
use crate::codec::{Decoded, decode_frame, encode_envelope, envelope_spec};
use crate::json::json_text_well_formed;

verus! {

/// The phases of one interactive run.
#[derive(Clone, Copy, PartialEq, Eq, Structural, Debug)]
pub enum SessionState {
    /// The connection is being established.
    Connecting,
    /// The loop is draining both event sources.
    Active,
    /// Terminal: the loop exits.
    Closed,
}

/// One event from the network stream, as the loop sees it.
pub enum NetEvent {
    /// A text frame arrived.
    Text(String),
    /// The peer sent an explicit close signal.
    CloseSignal,
    /// The stream ended: no more events.
    StreamEnd,
    /// Any other frame variant.
    Unrecognized,
}

/// One event from the local line queue.
pub enum LineEvent {
    /// The operator entered a line, trailing newline already stripped.
    Line(String),
    /// The queue closed: the local console reached end of input.
    SourceClosed,
}

/// What the session loop should do with an event's outcome.
pub enum Action {
    /// Print the text on standard output.
    Print(String),
    /// Print the text on standard error.
    PrintError(String),
    /// Send the text to the network write side.
    Send(String),
    /// Nothing to perform.
    Nothing,
}

/// The view of an `Action`, over character sequences.
pub enum ActionView {
    Print(Seq<char>),
    PrintError(Seq<char>),
    Send(Seq<char>),
    Nothing,
}

impl View for Action {
    type V = ActionView;

    open spec fn view(&self) -> ActionView {
        match self {
            Action::Print(s) => ActionView::Print(s@),
            Action::PrintError(s) => ActionView::PrintError(s@),
            Action::Send(s) => ActionView::Send(s@),
            Action::Nothing => ActionView::Nothing,
        }
    }
}

/// The session's reaction to one decoded inbound frame: display text and
/// payload diagnostics keep the session active; an unrecognized top-level
/// shape closes it.
pub open spec fn decoded_step(d: Decoded) -> (SessionState, ActionView) {
    match d {
        Decoded::DisplayText(t) => (SessionState::Active, ActionView::Print(t@)),
        Decoded::MissingPayload => (
            SessionState::Active,
            ActionView::Print("JSON message does not have a 'Message' field or it is not a String"@),
        ),
        Decoded::Malformed(e) => (
            SessionState::Active,
            ActionView::PrintError("Failed to parse JSON: "@ + e@),
        ),
        Decoded::UnhandledShape(info) => (
            SessionState::Closed,
            ActionView::PrintError("Unhandled JSON from_str type: "@ + info@),
        ),
    }
}

/// Carries one decoded inbound frame into the session: the returned state and
/// action are exactly `decoded_step`.
pub fn step_decoded(d: Decoded) -> (r: (SessionState, Action))
    ensures
        (r.0, r.1@) == decoded_step(d),
{
    match d {
        Decoded::DisplayText(t) => (SessionState::Active, Action::Print(t)),
        Decoded::MissingPayload => (
            SessionState::Active,
            Action::Print(String::from_str(
                "JSON message does not have a 'Message' field or it is not a String",
            )),
        ),
        Decoded::Malformed(e) => {
            let mut m = String::from_str("Failed to parse JSON: ");
            m.append(e.as_str());
            (SessionState::Active, Action::PrintError(m))
        },
        Decoded::UnhandledShape(info) => {
            let mut m = String::from_str("Unhandled JSON from_str type: ");
            m.append(info.as_str());
            (SessionState::Closed, Action::PrintError(m))
        },
    }
}

/// The session's reaction to one network event: a text frame is decoded and
/// handled by `decoded_step`; a close signal, the end of the stream, and any
/// unrecognized frame variant each close the session.
pub fn on_net_event(ev: NetEvent) -> (r: (SessionState, Action))
    ensures
        ev matches NetEvent::Text(t) && !json_text_well_formed(t@) ==> (
            r.0 == SessionState::Active
            && (r.1@ matches ActionView::PrintError(m)
                && "Failed to parse JSON: "@.is_prefix_of(m))
        ),
        ev matches NetEvent::Text(t) && json_text_well_formed(t@) ==> (
            !(r.1@ matches ActionView::Send(_))
            && r.0 != SessionState::Connecting
            && (r.0 == SessionState::Closed ==> (r.1@ matches ActionView::PrintError(m)
                && "Unhandled JSON from_str type: "@.is_prefix_of(m)))
        ),
        ev is CloseSignal ==> r.0 == SessionState::Closed
            && r.1@ == ActionView::Print("Connection closed with a Close message."@),
        ev is StreamEnd ==> r.0 == SessionState::Closed
            && r.1@ == ActionView::Print("WebSocket stream ended"@),
        ev is Unrecognized ==> r.0 == SessionState::Closed
            && r.1@ == ActionView::Print("Catchall case for WebSocket"@),
{
    match ev {
        NetEvent::Text(t) => {
            let d = decode_frame(t.as_str());
            let ghost gd = d;
            let r = step_decoded(d);
            proof {
                if let Decoded::Malformed(e) = gd {
                    lemma_concat_prefix("Failed to parse JSON: "@, e@);
                }
                if let Decoded::UnhandledShape(info) = gd {
                    lemma_concat_prefix("Unhandled JSON from_str type: "@, info@);
                }
            }
            r
        },
        NetEvent::CloseSignal => (
            SessionState::Closed,
            Action::Print(String::from_str("Connection closed with a Close message.")),
        ),
        NetEvent::StreamEnd => (
            SessionState::Closed,
            Action::Print(String::from_str("WebSocket stream ended")),
        ),
        NetEvent::Unrecognized => (
            SessionState::Closed,
            Action::Print(String::from_str("Catchall case for WebSocket")),
        ),
    }
}

/// The session's reaction to one local-line event: an entered line is encoded
/// as a wire envelope and sent; a closed queue closes the session with no
/// network event needed.
pub fn on_line_event(ev: LineEvent) -> (r: (SessionState, Action))
    ensures
        ev matches LineEvent::Line(t) ==> (
            r.0 == SessionState::Active
            && (r.1@ matches ActionView::Send(m) && m == envelope_spec(t@))
        ),
        ev is SourceClosed ==> r.0 == SessionState::Closed && r.1@ == ActionView::Nothing,
{
    match ev {
        LineEvent::Line(t) => (SessionState::Active, Action::Send(encode_envelope(t.as_str()))),
        LineEvent::SourceClosed => (SessionState::Closed, Action::Nothing),
    }
}

/// A sequence is a prefix of itself followed by anything.
proof fn lemma_concat_prefix(a: Seq<char>, b: Seq<char>)
    ensures
        a.is_prefix_of(a + b),
{
    assert((a + b).subrange(0, a.len() as int) =~= a);
}

/// A malformed inbound frame is non-fatal: the session stays active after its
/// diagnostic, and any frame decoded afterwards is handled exactly as
/// `decoded_step` says, display text in particular being printed unchanged.
pub proof fn lemma_malformed_frame_nonfatal(e: String, next: Decoded)
    ensures
        decoded_step(Decoded::Malformed(e)).0 == SessionState::Active,
        next matches Decoded::DisplayText(t) ==> decoded_step(next)
            == (SessionState::Active, ActionView::Print(t@)),
{
}

/// An inbound frame of unrecognized top-level shape closes the session, with
/// a diagnostic naming the rendered value.
pub proof fn lemma_unhandled_shape_closes(info: String)
    ensures
        decoded_step(Decoded::UnhandledShape(info)).0 == SessionState::Closed,
        decoded_step(Decoded::UnhandledShape(info)).1
            == ActionView::PrintError("Unhandled JSON from_str type: "@ + info@),
{
}

} // verus!
