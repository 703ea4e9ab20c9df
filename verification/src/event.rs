//! The two event vocabularies: what the upstream engine reports, and what the
//! viewers of a room are told.

use vstd::prelude::*;
use crate::wire::{json_member_str, json_nested_str, json_compact, json_quoted, text_of, read_member_str, read_nested_str, read_compact, quote, same_text};

verus! {

/// An event for the viewers of a room.
#[derive(Clone, Debug)]
pub enum OutwardEvent {
    /// The text of the running turn so far; replaces any earlier partial.
    Partial { text: String },
    /// The complete text of a turn.
    Final { text: String },
    /// A failure that the upstream engine reported, as a JSON document.
    Error { data: String },
}

/// The mathematical value of an `OutwardEvent`.
pub enum OutwardEventView {
    Partial { text: Seq<char> },
    Final { text: Seq<char> },
    Error { data: Seq<char> },
}

impl View for OutwardEvent {
    type V = OutwardEventView;

    open spec fn view(&self) -> OutwardEventView {
        match self {
            OutwardEvent::Partial { text } => OutwardEventView::Partial { text: text@ },
            OutwardEvent::Final { text } => OutwardEventView::Final { text: text@ },
            OutwardEvent::Error { data } => OutwardEventView::Error { data: data@ },
        }
    }
}

/// The JSON text of an outward event.
pub open spec fn outward_json(ev: OutwardEventView) -> Seq<char> {
    match ev {
        OutwardEventView::Partial { text } => "{\"type\":\"partial\",\"text\":"@ + json_quoted(text)
            + "}"@,
        OutwardEventView::Final { text } => "{\"type\":\"final\",\"text\":"@ + json_quoted(text)
            + "}"@,
        OutwardEventView::Error { data } => "{\"type\":\"error\",\"data\":"@ + data + "}"@,
    }
}

impl OutwardEvent {
    /// The JSON text that is pushed to the viewers.
    pub fn to_json(&self) -> (json: String)
        ensures
            json@ == outward_json(self@),
    {
        match self {
            OutwardEvent::Partial { text } => {
                let lit = quote(text.as_str());
                String::from_str("{\"type\":\"partial\",\"text\":").concat(lit.as_str()).concat("}")
            },
            OutwardEvent::Final { text } => {
                let lit = quote(text.as_str());
                String::from_str("{\"type\":\"final\",\"text\":").concat(lit.as_str()).concat("}")
            },
            OutwardEvent::Error { data } => {
                String::from_str("{\"type\":\"error\",\"data\":").concat(data.as_str()).concat("}")
            },
        }
    }
}

/// What a text frame of the upstream engine means to the bridge.
#[derive(Clone, Debug)]
pub enum UpstreamEvent {
    /// A turn was created.
    TurnCreated,
    /// A fragment of the turn's text.
    TextDelta(String),
    /// The turn, or its text, is complete.
    TurnDone,
    /// The engine reported an error; the payload is the whole frame as a
    /// compact JSON document.
    Failure(String),
    /// Anything else.
    Ignored,
}

/// The mathematical value of an `UpstreamEvent`.
pub enum UpstreamEventView {
    TurnCreated,
    TextDelta(Seq<char>),
    TurnDone,
    Failure(Seq<char>),
    Ignored,
}

impl View for UpstreamEvent {
    type V = UpstreamEventView;

    open spec fn view(&self) -> UpstreamEventView {
        match self {
            UpstreamEvent::TurnCreated => UpstreamEventView::TurnCreated,
            UpstreamEvent::TextDelta(d) => UpstreamEventView::TextDelta(d@),
            UpstreamEvent::TurnDone => UpstreamEventView::TurnDone,
            UpstreamEvent::Failure(p) => UpstreamEventView::Failure(p@),
            UpstreamEvent::Ignored => UpstreamEventView::Ignored,
        }
    }
}

/// Whether `tag` names the flat shape of a text fragment.
pub open spec fn is_flat_delta_tag(tag: Seq<char>) -> bool {
    tag == "response.output_text.delta"@ || tag == "response.text.delta"@
}

/// Whether `tag` names the end of a turn or of its text.
pub open spec fn is_done_tag(tag: Seq<char>) -> bool {
    tag == "response.output_text.done"@ || tag == "response.completed"@ || tag
        == "response.text.done"@ || tag == "response.done"@
}

/// The event that a frame stands for, given what reading it as JSON gave:
/// its `type` member, its `delta` member as a string, the `type` and `text`
/// members of its `delta` object, and the frame as a compact document.
pub open spec fn classify_fields(
    tag: Option<Seq<char>>,
    flat_delta: Option<Seq<char>>,
    nested_tag: Option<Seq<char>>,
    nested_text: Option<Seq<char>>,
    compact: Option<Seq<char>>,
) -> UpstreamEventView {
    match tag {
        None => UpstreamEventView::Ignored,
        Some(t) => if t == "response.created"@ {
            UpstreamEventView::TurnCreated
        } else if is_flat_delta_tag(t) {
            match flat_delta {
                Some(d) => UpstreamEventView::TextDelta(d),
                None => UpstreamEventView::Ignored,
            }
        } else if t == "response.delta"@ {
            match (nested_tag, nested_text) {
                (Some(nt), Some(d)) => if nt == "output_text.delta"@ {
                    UpstreamEventView::TextDelta(d)
                } else {
                    UpstreamEventView::Ignored
                },
                _ => UpstreamEventView::Ignored,
            }
        } else if is_done_tag(t) {
            UpstreamEventView::TurnDone
        } else if t == "error"@ {
            match compact {
                Some(p) => UpstreamEventView::Failure(p),
                None => UpstreamEventView::Ignored,
            }
        } else {
            UpstreamEventView::Ignored
        },
    }
}

/// The event that the frame `text` stands for.
pub open spec fn classify_spec(text: Seq<char>) -> UpstreamEventView {
    classify_fields(
        json_member_str(text, "type"@),
        json_member_str(text, "delta"@),
        json_nested_str(text, "delta"@, "type"@),
        json_nested_str(text, "delta"@, "text"@),
        json_compact(text),
    )
}

/// Classifies a frame from what reading it as JSON gave. The arguments are
/// those of `classify_fields`.
pub fn classify_parts(
    tag: Option<String>,
    flat_delta: Option<String>,
    nested_tag: Option<String>,
    nested_text: Option<String>,
    compact: Option<String>,
) -> (ev: UpstreamEvent)
    ensures
        ev@ == classify_fields(
            text_of(tag),
            text_of(flat_delta),
            text_of(nested_tag),
            text_of(nested_text),
            text_of(compact),
        ),
{
    let t = match tag {
        Some(t) => t,
        None => { return UpstreamEvent::Ignored; },
    };
    let t = t.as_str();
    if same_text(t, "response.created") {
        UpstreamEvent::TurnCreated
    } else if same_text(t, "response.output_text.delta") || same_text(t, "response.text.delta") {
        match flat_delta {
            Some(d) => UpstreamEvent::TextDelta(d),
            None => UpstreamEvent::Ignored,
        }
    } else if same_text(t, "response.delta") {
        match (nested_tag, nested_text) {
            (Some(nt), Some(d)) => if same_text(nt.as_str(), "output_text.delta") {
                UpstreamEvent::TextDelta(d)
            } else {
                UpstreamEvent::Ignored
            },
            _ => UpstreamEvent::Ignored,
        }
    } else if same_text(t, "response.output_text.done") || same_text(t, "response.completed")
        || same_text(t, "response.text.done") || same_text(t, "response.done") {
        UpstreamEvent::TurnDone
    } else if same_text(t, "error") {
        match compact {
            Some(p) => UpstreamEvent::Failure(p),
            None => UpstreamEvent::Ignored,
        }
    } else {
        UpstreamEvent::Ignored
    }
}

/// Reads a text frame of the upstream engine and classifies it. Only the
/// members that the frame's `type` calls for are read.
pub fn classify(text: &str) -> (ev: UpstreamEvent)
    ensures
        ev@ == classify_spec(text@),
{
    let tag = read_member_str(text, "type");
    let mut flat_delta: Option<String> = None;
    let mut nested_tag: Option<String> = None;
    let mut nested_text: Option<String> = None;
    let mut compact: Option<String> = None;
    match &tag {
        Some(t) => {
            let t = t.as_str();
            if same_text(t, "response.output_text.delta") || same_text(t, "response.text.delta") {
                flat_delta = read_member_str(text, "delta");
            } else if same_text(t, "response.delta") {
                nested_tag = read_nested_str(text, "delta", "type");
                nested_text = read_nested_str(text, "delta", "text");
            } else if same_text(t, "error") {
                compact = read_compact(text);
            }
        },
        None => {},
    }
    classify_parts(tag, flat_delta, nested_tag, nested_text, compact)
}

} // verus!
