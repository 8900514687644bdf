use vstd::prelude::*;
use vstd::string::*;

verus! {

/// Milliseconds to wait after a failed or closed session before reconnecting.
pub const BACKOFF_MS: u64 = 3000;

/// The string stored under `key` at the top level of the JSON object that
/// `frame` holds, as `serde_json` reads it; `None` when `frame` is not JSON,
/// not an object, lacks the key, or stores something other than a string there.
pub uninterp spec fn json_string_field(frame: Seq<char>, key: Seq<char>) -> Option<Seq<char>>;

/// Relies on `serde_json::from_str` into a `serde_json::Value`, then
/// `Value::get` and `Value::as_str`: the string field `key` of the object in
/// `frame`, if there is one.
#[verifier::external_body]
fn string_field(frame: &str, key: &str) -> (r: Option<String>)
    ensures
        r matches Some(s) ==> json_string_field(frame@, key@) == Some(s@),
        r is None ==> json_string_field(frame@, key@) is None,
{
    let value = serde_json::from_str::<serde_json::Value>(frame).ok()?;
    value.get(key)?.as_str().map(|s| s.to_string())
}

/// The endpoint the client connects to.
pub fn endpoint() -> (r: String)
    ensures
        r@ == "ws://localhost:8765"@,
{
    String::from_str("ws://localhost:8765")
}

/// The frame the client sends once after each successful connection.
pub fn handshake_frame() -> (r: String)
    ensures
        r@ == "{\"type\":\"client_connected\",\"client\":\"tauri\"}"@,
{
    String::from_str("{\"type\":\"client_connected\",\"client\":\"tauri\"}")
}

/// A transcription that an inbound frame carried.
#[derive(Debug, Clone)]
pub struct Transcription {
    pub text: String,
    pub mode: String,
}

/// A transcription as plain values.
pub struct TranscriptionView {
    pub text: Seq<char>,
    pub mode: Seq<char>,
}

impl View for Transcription {
    type V = TranscriptionView;

    open spec fn view(&self) -> TranscriptionView {
        TranscriptionView { text: self.text@, mode: self.mode@ }
    }
}

/// The plain view of an optional string.
pub open spec fn opt_view(o: Option<String>) -> Option<Seq<char>> {
    match o {
        Some(s) => Some(s@),
        None => None,
    }
}

/// The transcription that a frame with these `type`, `text` and `mode`
/// string fields carries: one only when `type` is `"transcription"`, with
/// `text` defaulting to the empty string and `mode` to `"standard"`.
pub open spec fn transcription_of(
    kind: Option<Seq<char>>,
    text: Option<Seq<char>>,
    mode: Option<Seq<char>>,
) -> Option<TranscriptionView> {
    if kind == Some("transcription"@) {
        Some(
            TranscriptionView {
                text: match text {
                    Some(t) => t,
                    None => Seq::empty(),
                },
                mode: match mode {
                    Some(m) => m,
                    None => "standard"@,
                },
            },
        )
    } else {
        None
    }
}

/// What an inbound text frame decodes to; nothing for a frame that is
/// malformed or of another type.
pub open spec fn decoded(frame: Seq<char>) -> Option<TranscriptionView> {
    transcription_of(
        json_string_field(frame, "type"@),
        json_string_field(frame, "text"@),
        json_string_field(frame, "mode"@),
    )
}

/// Builds the transcription from a frame's `type`, `text` and `mode` string
/// fields, if it carries one.
pub fn transcription_from_fields(kind: Option<String>, text: Option<String>, mode: Option<String>) -> (r: Option<Transcription>)
    ensures
        r matches Some(t) ==> transcription_of(opt_view(kind), opt_view(text), opt_view(mode)) == Some(t@),
        r is None ==> transcription_of(opt_view(kind), opt_view(text), opt_view(mode)) is None,
{
    let is_transcription = match &kind {
        Some(k) => *k == String::from_str("transcription"),
        None => false,
    };
    if !is_transcription {
        return None;
    }
    let text = match text {
        Some(t) => t,
        None => String::new(),
    };
    let mode = match mode {
        Some(m) => m,
        None => String::from_str("standard"),
    };
    Some(Transcription { text, mode })
}

/// Decodes an inbound text frame; frames that are malformed or of another
/// type give `None`.
pub fn decode_frame(frame: &str) -> (r: Option<Transcription>)
    ensures
        r matches Some(t) ==> decoded(frame@) == Some(t@),
        r is None ==> decoded(frame@) is None,
{
    let kind = string_field(frame, "type");
    let text = string_field(frame, "text");
    let mode = string_field(frame, "mode");
    transcription_from_fields(kind, text, mode)
}

/// Where the client's single session stands.
#[derive(Debug, Clone, Copy, PartialEq, Eq, Structural)]
pub enum LinkState {
    /// Not started yet.
    Disconnected,
    /// A connection attempt is under way.
    Connecting,
    /// A session is live and being read.
    Connected,
    /// Waiting out the backoff before the next attempt.
    BackingOff,
}

/// What the client's runner observed.
#[derive(Debug, Clone)]
pub enum LinkEvent {
    /// The runner starts the client.
    Start,
    /// The connection attempt succeeded.
    Connected,
    /// The connection attempt failed.
    ConnectFailed,
    /// A text frame arrived.
    Text(String),
    /// A frame that is neither text nor close arrived.
    Other,
    /// The peer sent a close frame.
    PeerClosed,
    /// Reading failed, or the stream ended.
    ReadFailed,
    /// The backoff wait is over.
    BackoffElapsed,
}

/// What the runner is to do next.
#[derive(Debug, Clone)]
pub enum LinkAction {
    /// Open a connection to the endpoint.
    Connect,
    /// Send the handshake frame, then read the next frame.
    SendHandshake,
    /// Hand the transcription to the presentation surface, then read the next frame.
    Forward(Transcription),
    /// Read the next frame.
    ReadNext,
    /// Wait this many milliseconds.
    Sleep(u64),
    /// Nothing: the event does not fit the state.
    Ignore,
}

/// An action as plain values.
pub enum ActionView {
    Connect,
    SendHandshake,
    Forward(TranscriptionView),
    ReadNext,
    Sleep(u64),
    Ignore,
}

impl View for LinkAction {
    type V = ActionView;

    open spec fn view(&self) -> ActionView {
        match self {
            LinkAction::Connect => ActionView::Connect,
            LinkAction::SendHandshake => ActionView::SendHandshake,
            LinkAction::Forward(t) => ActionView::Forward(t@),
            LinkAction::ReadNext => ActionView::ReadNext,
            LinkAction::Sleep(ms) => ActionView::Sleep(*ms),
            LinkAction::Ignore => ActionView::Ignore,
        }
    }
}

/// The next state and action of the client, given its state and what the
/// runner observed. Any session end leads to one fixed backoff and then one
/// new attempt; a frame that does not decode is skipped and the session goes on.
pub open spec fn transition(s: LinkState, e: LinkEvent) -> (LinkState, ActionView) {
    match (s, e) {
        (LinkState::Disconnected, LinkEvent::Start) => (LinkState::Connecting, ActionView::Connect),
        (LinkState::Connecting, LinkEvent::Connected) => (
            LinkState::Connected,
            ActionView::SendHandshake,
        ),
        (LinkState::Connecting, LinkEvent::ConnectFailed) => (
            LinkState::BackingOff,
            ActionView::Sleep(BACKOFF_MS),
        ),
        (LinkState::Connected, LinkEvent::Text(frame)) => (
            LinkState::Connected,
            match decoded(frame@) {
                Some(t) => ActionView::Forward(t),
                None => ActionView::ReadNext,
            },
        ),
        (LinkState::Connected, LinkEvent::Other) => (LinkState::Connected, ActionView::ReadNext),
        (LinkState::Connected, LinkEvent::PeerClosed) => (
            LinkState::BackingOff,
            ActionView::Sleep(BACKOFF_MS),
        ),
        (LinkState::Connected, LinkEvent::ReadFailed) => (
            LinkState::BackingOff,
            ActionView::Sleep(BACKOFF_MS),
        ),
        (LinkState::BackingOff, LinkEvent::BackoffElapsed) => (
            LinkState::Connecting,
            ActionView::Connect,
        ),
        _ => (s, ActionView::Ignore),
    }
}

/// Decides the client's next state and action.
pub fn step(s: LinkState, e: &LinkEvent) -> (r: (LinkState, LinkAction))
    ensures
        r.0 == transition(s, *e).0,
        r.1@ == transition(s, *e).1,
{
    match (s, e) {
        (LinkState::Disconnected, LinkEvent::Start) => (LinkState::Connecting, LinkAction::Connect),
        (LinkState::Connecting, LinkEvent::Connected) => (
            LinkState::Connected,
            LinkAction::SendHandshake,
        ),
        (LinkState::Connecting, LinkEvent::ConnectFailed) => (
            LinkState::BackingOff,
            LinkAction::Sleep(BACKOFF_MS),
        ),
        (LinkState::Connected, LinkEvent::Text(frame)) => (
            LinkState::Connected,
            match decode_frame(frame.as_str()) {
                Some(t) => LinkAction::Forward(t),
                None => LinkAction::ReadNext,
            },
        ),
        (LinkState::Connected, LinkEvent::Other) => (LinkState::Connected, LinkAction::ReadNext),
        (LinkState::Connected, LinkEvent::PeerClosed) => (
            LinkState::BackingOff,
            LinkAction::Sleep(BACKOFF_MS),
        ),
        (LinkState::Connected, LinkEvent::ReadFailed) => (
            LinkState::BackingOff,
            LinkAction::Sleep(BACKOFF_MS),
        ),
        (LinkState::BackingOff, LinkEvent::BackoffElapsed) => (
            LinkState::Connecting,
            LinkAction::Connect,
        ),
        _ => (s, LinkAction::Ignore),
    }
}


/// The transport client's decision state: one session at a time.
pub struct TransportClient {
    state: LinkState,
}

impl TransportClient {
    pub closed spec fn spec_state(&self) -> LinkState {
        self.state
    }

    /// A client that has not started.
    pub fn new() -> (r: TransportClient)
        ensures
            r.spec_state() == LinkState::Disconnected,
    {
        TransportClient { state: LinkState::Disconnected }
    }

    /// Where the session stands.
    pub fn state(&self) -> (r: LinkState)
        ensures
            r == self.spec_state(),
    {
        self.state
    }

    /// Takes in what the runner observed and returns what it is to do next.
    pub fn handle(&mut self, e: &LinkEvent) -> (r: LinkAction)
        ensures
            final(self).spec_state() == transition(old(self).spec_state(), *e).0,
            r@ == transition(old(self).spec_state(), *e).1,
    {
        let (next, action) = step(self.state, e);
        self.state = next;
        action
    }
}

/// A new connection attempt is only ever started when no session is live,
/// and only from the start or after the backoff.
pub proof fn lemma_single_session(s: LinkState, e: LinkEvent)
    ensures
        transition(s, e).1 is Connect ==> (s is Disconnected && e is Start) || (s is BackingOff
            && e is BackoffElapsed),
        transition(s, e).0 is Connected ==> s is Connected || s is Connecting,
{
}

/// A frame that does not decode is skipped without ending the session, and
/// the next frame that decodes is forwarded.
pub proof fn lemma_bad_frame_keeps_session(bad: String, good: String)
    requires
        decoded(bad@) is None,
        decoded(good@) is Some,
    ensures
        transition(LinkState::Connected, LinkEvent::Text(bad)) == (
            LinkState::Connected,
            ActionView::ReadNext,
        ),
        transition(LinkState::Connected, LinkEvent::Text(good)) == (
            LinkState::Connected,
            ActionView::Forward(decoded(good@)->0),
        ),
{
}

/// When a live session ends, the client waits the fixed backoff once, makes
/// exactly one new attempt when the wait is over and nothing before, and
/// once connected again sends the handshake and forwards frames that decode.
pub proof fn lemma_one_reconnect_after_drop(end: LinkEvent, during_wait: LinkEvent, good: String)
    requires
        end is PeerClosed || end is ReadFailed,
        !(during_wait is BackoffElapsed),
        decoded(good@) is Some,
    ensures
        transition(LinkState::Connected, end) == (LinkState::BackingOff, ActionView::Sleep(3000)),
        transition(LinkState::BackingOff, during_wait) == (LinkState::BackingOff, ActionView::Ignore),
        transition(LinkState::BackingOff, LinkEvent::BackoffElapsed) == (
            LinkState::Connecting,
            ActionView::Connect,
        ),
        transition(LinkState::Connecting, LinkEvent::Connected) == (
            LinkState::Connected,
            ActionView::SendHandshake,
        ),
        transition(LinkState::Connected, LinkEvent::Text(good)) == (
            LinkState::Connected,
            ActionView::Forward(decoded(good@)->0),
        ),
{
}

} // verus!
