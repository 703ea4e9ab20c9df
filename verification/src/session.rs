//! The decisions of one speaker session: what each message of the speaker
//! and each frame of the upstream engine changes, and what is to be sent in
//! return. Reading, sending and waiting are left to the caller.

use vstd::prelude::*;
use crate::adapter::{step_buffer, step_output, Adapter};
use crate::audio_gate::{
    admit_commit_spec,
    estimate_duration_ms_spec,
    min_bytes_for_spec,
    AudioGate,
};
use crate::directive::{instructions_for, instructions_spec, source_lang_spec, Directive, DirectiveView};
use crate::event::{classify, classify_spec, OutwardEvent, UpstreamEvent, UpstreamEventView};
use crate::turn::{
    decide_spec,
    elapsed_spec,
    CommitDecision,
    TurnState,
    TurnTracker,
    STALE_AFTER_MS,
};
use crate::wire::{
    base64_standard,
    encode_base64,
    json_member_str,
    json_quoted,
    quote,
    read_member_str,
    same_text,
    text_of,
};

verus! {

/// Milliseconds to wait after a commit message before it is gated, so that
/// audio sent just before it has been counted.
pub const DEBOUNCE_MS: u64 = 100;

/// Seconds after which an attempt to reach the upstream engine is given up.
pub const CONNECT_TIMEOUT_SECS: u64 = 10;

/// A text message of the speaker.
#[derive(Clone, Debug)]
pub enum ClientMessage {
    /// Configures the session for a speaker and a language pair.
    Init { name: String, pair: String },
    /// Asks for the buffered audio to be translated.
    Commit,
    /// Anything else.
    Unknown,
}

/// The mathematical value of a `ClientMessage`.
pub enum ClientMessageView {
    Init { name: Seq<char>, pair: Seq<char> },
    Commit,
    Unknown,
}

impl View for ClientMessage {
    type V = ClientMessageView;

    open spec fn view(&self) -> ClientMessageView {
        match self {
            ClientMessage::Init { name, pair } => ClientMessageView::Init {
                name: name@,
                pair: pair@,
            },
            ClientMessage::Commit => ClientMessageView::Commit,
            ClientMessage::Unknown => ClientMessageView::Unknown,
        }
    }
}

/// The message that a text stands for, given its string members `type`,
/// `name` and `pair`.
pub open spec fn client_message_fields(
    tag: Option<Seq<char>>,
    name: Option<Seq<char>>,
    pair: Option<Seq<char>>,
) -> ClientMessageView {
    match tag {
        None => ClientMessageView::Unknown,
        Some(t) => if t == "init"@ {
            match (name, pair) {
                (Some(n), Some(p)) => ClientMessageView::Init { name: n, pair: p },
                _ => ClientMessageView::Unknown,
            }
        } else if t == "commit"@ {
            ClientMessageView::Commit
        } else {
            ClientMessageView::Unknown
        },
    }
}

/// The message that the text `text` stands for.
pub open spec fn client_message_spec(text: Seq<char>) -> ClientMessageView {
    client_message_fields(
        json_member_str(text, "type"@),
        json_member_str(text, "name"@),
        json_member_str(text, "pair"@),
    )
}

/// Tells the messages apart from the string members `type`, `name` and
/// `pair` of a text.
pub fn client_message_from(tag: Option<String>, name: Option<String>, pair: Option<String>) -> (msg:
    ClientMessage)
    ensures
        msg@ == client_message_fields(text_of(tag), text_of(name), text_of(pair)),
{
    match tag {
        None => ClientMessage::Unknown,
        Some(t) => if same_text(t.as_str(), "init") {
            match (name, pair) {
                (Some(n), Some(p)) => ClientMessage::Init { name: n, pair: p },
                _ => ClientMessage::Unknown,
            }
        } else if same_text(t.as_str(), "commit") {
            ClientMessage::Commit
        } else {
            ClientMessage::Unknown
        },
    }
}

/// Reads a text message of the speaker. The members `name` and `pair` are
/// read only where the `type` is `init`.
pub fn parse_client_message(text: &str) -> (msg: ClientMessage)
    ensures
        msg@ == client_message_spec(text@),
{
    let tag = read_member_str(text, "type");
    let mut name: Option<String> = None;
    let mut pair: Option<String> = None;
    match &tag {
        Some(t) => {
            if same_text(t.as_str(), "init") {
                name = read_member_str(text, "name");
                pair = read_member_str(text, "pair");
            }
        },
        None => {},
    }
    client_message_from(tag, name, pair)
}

/// What the caller does after a text message of the speaker.
#[derive(Clone, Debug)]
pub enum ClientStep {
    /// Send the directive upstream.
    Forward(Directive),
    /// Wait `DEBOUNCE_MS`, then call `Session::commit`.
    Debounce,
    /// Nothing.
    Skip,
}

/// A frame of the speaker's connection.
#[derive(Clone, Debug)]
pub enum ClientFrame {
    /// A text message.
    Text(String),
    /// Audio: little-endian 16-bit PCM, mono, 24 kHz.
    Binary(Vec<u8>),
    /// The speaker closes the connection.
    Close,
    /// Any other frame.
    Other,
}

/// What the caller does after a frame of the speaker.
#[derive(Clone, Debug)]
pub enum FrameStep {
    /// Go on as the step for a text message says.
    Step(ClientStep),
    /// End the session.
    Stop,
}

/// The directives that a commit sends, in order: none where the session is
/// not configured, the buffered audio is too short or a live turn is in
/// flight; the commit and the start of a turn otherwise, after a
/// cancellation where a stale turn was in flight.
pub open spec fn commit_directives(
    initialized: bool,
    buffered: nat,
    tracker: TurnTracker,
    now_ms: u64,
) -> Seq<DirectiveView> {
    if !initialized || !admit_commit_spec(buffered as int) {
        Seq::empty()
    } else {
        match decide_spec(tracker.state, elapsed_spec(now_ms, tracker.last_fragment_ms)) {
            CommitDecision::Start => seq![DirectiveView::BufferCommit, DirectiveView::TurnStart],
            CommitDecision::CancelThenStart => seq![
                DirectiveView::TurnCancel,
                DirectiveView::BufferCommit,
                DirectiveView::TurnStart,
            ],
            CommitDecision::Reject => Seq::empty(),
        }
    }
}

/// Why a commit sends what it sends, for the record.
#[derive(Clone, Copy, Debug, PartialEq, Eq, Structural)]
pub enum CommitNote {
    /// The session is not configured: nothing is sent.
    NotConfigured,
    /// The buffered audio, of the duration given, is too short: nothing is
    /// sent.
    TooShort { buffered_ms: u64 },
    /// A turn is in flight whose last fragment is no older than the
    /// staleness threshold: nothing is sent.
    StillActive { elapsed_ms: u64 },
    /// A stale turn is cancelled before the new one starts.
    CancelStale { elapsed_ms: u64 },
    /// No turn is in flight: the new one starts.
    Start,
}

/// The note on a commit at `now_ms` in the state given.
pub open spec fn commit_note_spec(
    initialized: bool,
    buffered: nat,
    tracker: TurnTracker,
    now_ms: u64,
) -> CommitNote {
    let elapsed = elapsed_spec(now_ms, tracker.last_fragment_ms);
    if !initialized {
        CommitNote::NotConfigured
    } else if !admit_commit_spec(buffered as int) {
        CommitNote::TooShort { buffered_ms: estimate_duration_ms_spec(buffered as int) as u64 }
    } else {
        match decide_spec(tracker.state, elapsed) {
            CommitDecision::Start => CommitNote::Start,
            CommitDecision::CancelThenStart => CommitNote::CancelStale { elapsed_ms: elapsed as u64 },
            CommitDecision::Reject => CommitNote::StillActive { elapsed_ms: elapsed as u64 },
        }
    }
}

/// The note tells what a commit sends: nothing unless it says `Start` or
/// `CancelStale`; the commit and the start of a turn on `Start`; a
/// cancellation before them on `CancelStale`.
pub proof fn lemma_note_tells_directives(
    initialized: bool,
    buffered: nat,
    tracker: TurnTracker,
    now_ms: u64,
)
    ensures
        match commit_note_spec(initialized, buffered, tracker, now_ms) {
            CommitNote::Start => commit_directives(initialized, buffered, tracker, now_ms) == seq![
                DirectiveView::BufferCommit,
                DirectiveView::TurnStart,
            ],
            CommitNote::CancelStale { .. } => commit_directives(
                initialized,
                buffered,
                tracker,
                now_ms,
            ) == seq![
                DirectiveView::TurnCancel,
                DirectiveView::BufferCommit,
                DirectiveView::TurnStart,
            ],
            _ => commit_directives(initialized, buffered, tracker, now_ms) == Seq::<
                DirectiveView,
            >::empty(),
        },
{
}

/// Without enough buffered audio a commit sends nothing, whatever the state
/// of the turn; so does a commit in a session that is not configured.
pub proof fn lemma_commit_needs_audio(
    initialized: bool,
    buffered: nat,
    tracker: TurnTracker,
    now_ms: u64,
)
    requires
        !initialized || buffered < min_bytes_for_spec(100),
    ensures
        commit_directives(initialized, buffered, tracker, now_ms) == Seq::<DirectiveView>::empty(),
{
}

/// With enough audio in a configured session: a commit during a turn whose
/// last fragment is no more than 800 ms old sends nothing, neither a
/// cancellation nor the start of a turn; one during a turn whose last
/// fragment is older sends exactly one cancellation, then the commit and the
/// start of the next turn; one outside a turn sends the commit and the start.
pub proof fn lemma_commit_by_staleness(buffered: nat, tracker: TurnTracker, now_ms: u64)
    requires
        buffered >= min_bytes_for_spec(100),
    ensures
        tracker.state == TurnState::Active && elapsed_spec(now_ms, tracker.last_fragment_ms) <= 800
            ==> commit_directives(true, buffered, tracker, now_ms) == Seq::<DirectiveView>::empty(),
        tracker.state == TurnState::Active && elapsed_spec(now_ms, tracker.last_fragment_ms) > 800
            ==> commit_directives(true, buffered, tracker, now_ms) == seq![
            DirectiveView::TurnCancel,
            DirectiveView::BufferCommit,
            DirectiveView::TurnStart,
        ],
        tracker.state == TurnState::Idle ==> commit_directives(true, buffered, tracker, now_ms)
            == seq![DirectiveView::BufferCommit, DirectiveView::TurnStart],
{
}

/// The tracker after an upstream event at `now_ms`.
pub open spec fn tracker_after(tracker: TurnTracker, ev: UpstreamEventView, now_ms: u64) -> TurnTracker {
    match ev {
        UpstreamEventView::TurnCreated => if tracker.state == TurnState::Idle {
            TurnTracker { state: TurnState::Active, started_ms: now_ms, last_fragment_ms: now_ms }
        } else {
            tracker
        },
        UpstreamEventView::TextDelta(_) => TurnTracker { last_fragment_ms: now_ms, ..tracker },
        UpstreamEventView::TurnDone => TurnTracker { state: TurnState::Idle, ..tracker },
        UpstreamEventView::Failure(_) => TurnTracker { state: TurnState::Idle, ..tracker },
        UpstreamEventView::Ignored => tracker,
    }
}

/// The views of a sequence of directives.
pub open spec fn directive_views(ds: Seq<Directive>) -> Seq<DirectiveView> {
    ds.map_values(|d: Directive| d@)
}

/// State of one speaker session.
#[derive(Clone, Debug)]
pub struct Session {
    /// Whether a translation directive has been configured.
    pub initialized: bool,
    /// The audio forwarded since the last commit.
    pub gate: AudioGate,
    /// The turn in flight, if any.
    pub tracker: TurnTracker,
    /// The running text of the turn.
    pub adapter: Adapter,
}

impl Session {
    /// A session that is not configured, with no audio, no turn and no text.
    pub fn new(now_ms: u64) -> (s: Session)
        ensures
            !s.initialized,
            s.gate@ == 0,
            s.tracker == (TurnTracker {
                state: TurnState::Idle,
                started_ms: now_ms,
                last_fragment_ms: now_ms,
            }),
            s.adapter@ == Seq::<char>::empty(),
    {
        Session {
            initialized: false,
            gate: AudioGate::new(),
            tracker: TurnTracker::new(now_ms),
            adapter: Adapter::new(),
        }
    }

    /// Configures the session for the speaker `name` and the language pair
    /// `pair`: the session is initialized, the audio count starts anew, and
    /// the configuration directive is to be sent upstream.
    pub fn configure(&mut self, name: &str, pair: &str) -> (d: Directive)
        ensures
            final(self).initialized,
            final(self).gate@ == 0,
            final(self).tracker == old(self).tracker,
            final(self).adapter@ == old(self).adapter@,
            d@ == (DirectiveView::SessionUpdate {
                instructions: instructions_spec(pair@, name@),
                language: source_lang_spec(pair@),
            }),
    {
        let directive = instructions_for(pair, name);
        self.initialized = true;
        self.gate.reset();
        Directive::SessionUpdate {
            instructions: directive.1,
            language: String::from_str(directive.0),
        }
    }

    /// Takes a text message of the speaker. An init message configures the
    /// session; a commit message asks for the debounce where the session is
    /// configured and is skipped where it is not; anything else is skipped.
    pub fn on_client_text(&mut self, text: &str) -> (step: ClientStep)
        ensures
            final(self).tracker == old(self).tracker,
            final(self).adapter@ == old(self).adapter@,
            match client_message_spec(text@) {
                ClientMessageView::Init { name, pair } => {
                    &&& final(self).initialized
                    &&& final(self).gate@ == 0
                    &&& step matches ClientStep::Forward(d)
                    &&& d@ == (DirectiveView::SessionUpdate {
                        instructions: instructions_spec(pair, name),
                        language: source_lang_spec(pair),
                    })
                },
                ClientMessageView::Commit => {
                    &&& final(self).initialized == old(self).initialized
                    &&& final(self).gate@ == old(self).gate@
                    &&& old(self).initialized ==> step is Debounce
                    &&& !old(self).initialized ==> step is Skip
                },
                ClientMessageView::Unknown => {
                    &&& final(self).initialized == old(self).initialized
                    &&& final(self).gate@ == old(self).gate@
                    &&& step is Skip
                },
            },
    {
        match parse_client_message(text) {
            ClientMessage::Init { name, pair } => {
                let d = self.configure(name.as_str(), pair.as_str());
                ClientStep::Forward(d)
            },
            ClientMessage::Commit => {
                if self.initialized {
                    ClientStep::Debounce
                } else {
                    ClientStep::Skip
                }
            },
            ClientMessage::Unknown => ClientStep::Skip,
        }
    }

    /// Whether a frame of `len` bytes can be taken: the byte count must stay
    /// within the counter's range.
    pub fn can_accept_audio(&self, len: usize) -> (ok: bool)
        ensures
            ok == (self.initialized ==> self.gate@ + len <= u64::MAX),
    {
        !self.initialized || self.gate.has_room_for(len)
    }

    /// Takes a binary frame of the speaker. A session that is not configured
    /// drops it. Otherwise the frame is counted and is to be sent upstream
    /// as an append directive with the frame's base64 text.
    pub fn accept_audio(&mut self, frame: &[u8]) -> (out: Option<Directive>)
        requires
            old(self).initialized ==> old(self).gate@ + frame@.len() <= u64::MAX,
        ensures
            final(self).initialized == old(self).initialized,
            final(self).tracker == old(self).tracker,
            final(self).adapter@ == old(self).adapter@,
            !old(self).initialized ==> out.is_none() && final(self).gate@ == old(self).gate@,
            old(self).initialized ==> {
                &&& final(self).gate@ == old(self).gate@ + frame@.len()
                &&& out matches Some(d)
                &&& d@ == (DirectiveView::AudioAppend { audio: base64_standard(frame@) })
            },
    {
        if !self.initialized {
            return None;
        }
        self.gate.append(frame.len());
        Some(Directive::AudioAppend { audio: encode_base64(frame) })
    }

    /// Takes a frame of the speaker: a text message as `on_client_text`
    /// does, audio as `accept_audio` does, with the directive to forward if
    /// there is one. A close frame ends the session; any other frame is
    /// skipped.
    pub fn on_client_frame(&mut self, frame: &ClientFrame) -> (step: FrameStep)
        requires
            frame matches ClientFrame::Binary(bytes) ==> (old(self).initialized ==> old(self).gate@
                + bytes@.len() <= u64::MAX),
        ensures
            final(self).tracker == old(self).tracker,
            final(self).adapter@ == old(self).adapter@,
            match *frame {
                ClientFrame::Text(text) => match client_message_spec(text@) {
                    ClientMessageView::Init { name, pair } => {
                        &&& final(self).initialized
                        &&& final(self).gate@ == 0
                        &&& step matches FrameStep::Step(ClientStep::Forward(d))
                        &&& d@ == (DirectiveView::SessionUpdate {
                            instructions: instructions_spec(pair, name),
                            language: source_lang_spec(pair),
                        })
                    },
                    ClientMessageView::Commit => {
                        &&& final(self).initialized == old(self).initialized
                        &&& final(self).gate@ == old(self).gate@
                        &&& old(self).initialized ==> (step matches FrameStep::Step(
                            ClientStep::Debounce,
                        ))
                        &&& !old(self).initialized ==> (step matches FrameStep::Step(
                            ClientStep::Skip,
                        ))
                    },
                    ClientMessageView::Unknown => {
                        &&& final(self).initialized == old(self).initialized
                        &&& final(self).gate@ == old(self).gate@
                        &&& step matches FrameStep::Step(ClientStep::Skip)
                    },
                },
                ClientFrame::Binary(bytes) => {
                    &&& final(self).initialized == old(self).initialized
                    &&& !old(self).initialized ==> final(self).gate@ == old(self).gate@
                        && (step matches FrameStep::Step(ClientStep::Skip))
                    &&& old(self).initialized ==> {
                        &&& final(self).gate@ == old(self).gate@ + bytes@.len()
                        &&& step matches FrameStep::Step(ClientStep::Forward(d))
                        &&& d@ == (DirectiveView::AudioAppend { audio: base64_standard(bytes@) })
                    }
                },
                ClientFrame::Close => {
                    &&& final(self).initialized == old(self).initialized
                    &&& final(self).gate@ == old(self).gate@
                    &&& step is Stop
                },
                ClientFrame::Other => {
                    &&& final(self).initialized == old(self).initialized
                    &&& final(self).gate@ == old(self).gate@
                    &&& step matches FrameStep::Step(ClientStep::Skip)
                },
            },
    {
        match frame {
            ClientFrame::Text(text) => FrameStep::Step(self.on_client_text(text.as_str())),
            ClientFrame::Binary(bytes) => match self.accept_audio(bytes.as_slice()) {
                Some(d) => FrameStep::Step(ClientStep::Forward(d)),
                None => FrameStep::Step(ClientStep::Skip),
            },
            ClientFrame::Close => FrameStep::Stop,
            ClientFrame::Other => FrameStep::Step(ClientStep::Skip),
        }
    }

    /// The note on a commit at `now_ms`, as `commit` would decide it. Nothing
    /// changes.
    pub fn commit_note(&self, now_ms: u64) -> (note: CommitNote)
        ensures
            note == commit_note_spec(self.initialized, self.gate@, self.tracker, now_ms),
    {
        if !self.initialized {
            CommitNote::NotConfigured
        } else if !self.gate.admits() {
            CommitNote::TooShort { buffered_ms: self.gate.buffered_ms() }
        } else if !self.tracker.is_active() {
            CommitNote::Start
        } else {
            let elapsed_ms = self.tracker.elapsed_ms(now_ms);
            if elapsed_ms > STALE_AFTER_MS {
                CommitNote::CancelStale { elapsed_ms }
            } else {
                CommitNote::StillActive { elapsed_ms }
            }
        }
    }

    /// Gates a commit at `now_ms`, after the debounce. The directives to send
    /// upstream are those of `commit_directives`. Where there are any, a turn
    /// starts at `now_ms` and the audio count starts anew; where there are
    /// none, nothing changes.
    pub fn commit(&mut self, now_ms: u64) -> (out: Vec<Directive>)
        ensures
            directive_views(out@) == commit_directives(
                old(self).initialized,
                old(self).gate@,
                old(self).tracker,
                now_ms,
            ),
            out@.len() == commit_directives(
                old(self).initialized,
                old(self).gate@,
                old(self).tracker,
                now_ms,
            ).len(),
            final(self).initialized == old(self).initialized,
            final(self).adapter@ == old(self).adapter@,
            out@.len() == 0 ==> final(self).gate@ == old(self).gate@ && final(self).tracker == old(
                self,
            ).tracker,
            out@.len() > 0 ==> final(self).gate@ == 0 && final(self).tracker == (TurnTracker {
                state: TurnState::Active,
                started_ms: now_ms,
                last_fragment_ms: now_ms,
            }),
    {
        let mut out: Vec<Directive> = Vec::new();
        if !self.initialized || !self.gate.admits() {
            assert(directive_views(out@) =~= Seq::<DirectiveView>::empty());
            return out;
        }
        match self.tracker.request_commit(now_ms) {
            CommitDecision::Reject => {
                assert(directive_views(out@) =~= Seq::<DirectiveView>::empty());
                return out;
            },
            CommitDecision::CancelThenStart => {
                out.push(Directive::TurnCancel);
                out.push(Directive::BufferCommit);
                out.push(Directive::TurnStart);
                assert(directive_views(out@) =~= seq![
                    DirectiveView::TurnCancel,
                    DirectiveView::BufferCommit,
                    DirectiveView::TurnStart,
                ]);
            },
            CommitDecision::Start => {
                out.push(Directive::BufferCommit);
                out.push(Directive::TurnStart);
                assert(directive_views(out@) =~= seq![
                    DirectiveView::BufferCommit,
                    DirectiveView::TurnStart,
                ]);
            },
        }
        self.tracker.start_turn(now_ms);
        self.gate.reset();
        out
    }

    /// Takes an upstream event at `now_ms`: the tracker follows
    /// `tracker_after`, the running text `step_buffer`, and the event for the
    /// viewers, if any, is that of `step_output`.
    pub fn on_upstream_event(&mut self, ev: UpstreamEvent, now_ms: u64) -> (out: Option<OutwardEvent>)
        ensures
            final(self).initialized == old(self).initialized,
            final(self).gate@ == old(self).gate@,
            final(self).tracker == tracker_after(old(self).tracker, ev@, now_ms),
            final(self).adapter@ == step_buffer(old(self).adapter@, ev@),
            match out {
                Some(o) => step_output(old(self).adapter@, ev@) == Some(o@),
                None => step_output(old(self).adapter@, ev@).is_none(),
            },
    {
        match &ev {
            UpstreamEvent::TurnCreated => self.tracker.on_turn_created(now_ms),
            UpstreamEvent::TextDelta(_) => self.tracker.on_fragment(now_ms),
            UpstreamEvent::TurnDone => self.tracker.finish(),
            UpstreamEvent::Failure(_) => self.tracker.finish(),
            UpstreamEvent::Ignored => {},
        }
        self.adapter.apply(ev)
    }

    /// Takes a text frame of the upstream engine at `now_ms`: the frame is
    /// classified and taken as `on_upstream_event` takes the event.
    pub fn on_upstream_text(&mut self, text: &str, now_ms: u64) -> (out: Option<OutwardEvent>)
        ensures
            final(self).initialized == old(self).initialized,
            final(self).gate@ == old(self).gate@,
            final(self).tracker == tracker_after(old(self).tracker, classify_spec(text@), now_ms),
            final(self).adapter@ == step_buffer(old(self).adapter@, classify_spec(text@)),
            match out {
                Some(o) => step_output(old(self).adapter@, classify_spec(text@)) == Some(o@),
                None => step_output(old(self).adapter@, classify_spec(text@)).is_none(),
            },
    {
        let ev = classify(text);
        self.on_upstream_event(ev, now_ms)
    }
}

/// The message for a speaker whose room does not exist.
pub open spec fn room_not_found_spec() -> Seq<char> {
    "{\"error\":\"room not found\"}"@
}

/// The message for a speaker whose room does not exist.
pub fn room_not_found_message() -> (msg: String)
    ensures
        msg@ == room_not_found_spec(),
{
    String::from_str("{\"error\":\"room not found\"}")
}

/// The message for a speaker when the upstream engine cannot be reached.
pub open spec fn connect_error_spec(detail: Seq<char>) -> Seq<char> {
    "{\"error\":"@ + json_quoted(detail) + "}"@
}

/// The message for a speaker when the upstream engine cannot be reached:
/// a JSON object whose member `error` is `detail`.
pub fn connect_error_message(detail: &str) -> (msg: String)
    ensures
        msg@ == connect_error_spec(detail@),
{
    let lit = quote(detail);
    String::from_str("{\"error\":").concat(lit.as_str()).concat("}")
}

} // verus!
