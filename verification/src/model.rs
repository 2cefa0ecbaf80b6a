//! The canonical "universal event" model that every backend adapter targets,
//! together with the conversion envelope and the error taxonomy.
//!
//! All values are immutable and created per conversion call. Metadata is an
//! ordered key/value bag whose keys are unique within one message; message
//! parts keep their source order.

use vstd::prelude::*;
use crate::json::{JsonValue, JsonData};

verus! {

/// Where an image attachment lives.
#[derive(Debug, Clone, PartialEq, Eq)]
pub enum AttachmentSource {
    Url { url: String },
    Path { path: String },
}

#[verifier::ext_equal]
pub enum AttachmentSourceView {
    Url { url: Seq<char> },
    Path { path: Seq<char> },
}

impl DeepView for AttachmentSource {
    type V = AttachmentSourceView;

    open spec fn deep_view(&self) -> AttachmentSourceView {
        match *self {
            AttachmentSource::Url { url } => AttachmentSourceView::Url { url: url@ },
            AttachmentSource::Path { path } => AttachmentSourceView::Path { path: path@ },
        }
    }
}

/// One part of a parsed universal message, in emission order.
#[derive(Debug, Clone, PartialEq, Eq)]
pub enum UniversalMessagePart {
    Text {
        text: String,
    },
    Image {
        source: AttachmentSource,
        mime_type: Option<String>,
        alt: Option<String>,
        raw: Option<JsonValue>,
    },
    ToolCall {
        id: Option<String>,
        name: String,
        input: JsonValue,
    },
    ToolResult {
        id: Option<String>,
        name: Option<String>,
        output: JsonValue,
        is_error: Option<bool>,
    },
    Unknown {
        raw: JsonValue,
    },
}

#[verifier::ext_equal]
pub enum UniversalMessagePartView {
    Text {
        text: Seq<char>,
    },
    Image {
        source: AttachmentSourceView,
        mime_type: Option<Seq<char>>,
        alt: Option<Seq<char>>,
        raw: Option<JsonData>,
    },
    ToolCall {
        id: Option<Seq<char>>,
        name: Seq<char>,
        input: JsonData,
    },
    ToolResult {
        id: Option<Seq<char>>,
        name: Option<Seq<char>>,
        output: JsonData,
        is_error: Option<bool>,
    },
    Unknown {
        raw: JsonData,
    },
}

impl DeepView for UniversalMessagePart {
    type V = UniversalMessagePartView;

    open spec fn deep_view(&self) -> UniversalMessagePartView {
        match *self {
            UniversalMessagePart::Text { text } => UniversalMessagePartView::Text { text: text@ },
            UniversalMessagePart::Image { source, mime_type, alt, raw }
                => UniversalMessagePartView::Image {
                    source: source.deep_view(),
                    mime_type: mime_type.deep_view(),
                    alt: alt.deep_view(),
                    raw: raw.deep_view(),
                },
            UniversalMessagePart::ToolCall { id, name, input } => UniversalMessagePartView::ToolCall {
                id: id.deep_view(),
                name: name@,
                input: input.deep_view(),
            },
            UniversalMessagePart::ToolResult { id, name, output, is_error }
                => UniversalMessagePartView::ToolResult {
                    id: id.deep_view(),
                    name: name.deep_view(),
                    output: output.deep_view(),
                    is_error: is_error,
                },
            UniversalMessagePart::Unknown { raw } => UniversalMessagePartView::Unknown {
                raw: raw.deep_view(),
            },
        }
    }
}

/// A fully interpreted universal message.
#[derive(Debug, Clone, PartialEq, Eq)]
pub struct UniversalMessageParsed {
    /// Free-form role; this adapter emits "user" and "assistant".
    pub role: String,
    /// The backend item identifier, when one exists.
    pub id: Option<String>,
    /// Ordered metadata bag; keys are unique within one message.
    pub metadata: Vec<(String, JsonValue)>,
    /// Message parts in emission order, never reordered.
    pub parts: Vec<UniversalMessagePart>,
}

#[verifier::ext_equal]
pub struct UniversalMessageParsedView {
    pub role: Seq<char>,
    pub id: Option<Seq<char>>,
    pub metadata: Seq<(Seq<char>, JsonData)>,
    pub parts: Seq<UniversalMessagePartView>,
}

impl DeepView for UniversalMessageParsed {
    type V = UniversalMessageParsedView;

    open spec fn deep_view(&self) -> UniversalMessageParsedView {
        UniversalMessageParsedView {
            role: self.role@,
            id: self.id.deep_view(),
            metadata: self.metadata.deep_view(),
            parts: self.parts.deep_view(),
        }
    }
}

/// A universal message: interpreted, or an opaque payload this layer cannot
/// interpret further.
#[derive(Debug, Clone, PartialEq, Eq)]
pub enum UniversalMessage {
    Parsed(UniversalMessageParsed),
    Unparsed { raw: JsonValue },
}

#[verifier::ext_equal]
pub enum UniversalMessageView {
    Parsed(UniversalMessageParsedView),
    Unparsed { raw: JsonData },
}

impl DeepView for UniversalMessage {
    type V = UniversalMessageView;

    open spec fn deep_view(&self) -> UniversalMessageView {
        match *self {
            UniversalMessage::Parsed(p) => UniversalMessageView::Parsed(p.deep_view()),
            UniversalMessage::Unparsed { raw } => UniversalMessageView::Unparsed {
                raw: raw.deep_view(),
            },
        }
    }
}

/// A human-readable lifecycle phase label plus the originating object.
#[derive(Debug, Clone, PartialEq, Eq)]
pub struct Started {
    pub message: Option<String>,
    pub details: Option<JsonValue>,
}

#[verifier::ext_equal]
pub struct StartedView {
    pub message: Option<Seq<char>>,
    pub details: Option<JsonData>,
}

impl DeepView for Started {
    type V = StartedView;

    open spec fn deep_view(&self) -> StartedView {
        StartedView { message: self.message.deep_view(), details: self.details.deep_view() }
    }
}

/// An error event, lossless: `details` holds the full source envelope.
#[derive(Debug, Clone, PartialEq, Eq)]
pub struct CrashInfo {
    pub message: String,
    pub kind: Option<String>,
    pub details: Option<JsonValue>,
}

#[verifier::ext_equal]
pub struct CrashInfoView {
    pub message: Seq<char>,
    pub kind: Option<Seq<char>>,
    pub details: Option<JsonData>,
}

impl DeepView for CrashInfo {
    type V = CrashInfoView;

    open spec fn deep_view(&self) -> CrashInfoView {
        CrashInfoView {
            message: self.message@,
            kind: self.kind.deep_view(),
            details: self.details.deep_view(),
        }
    }
}

/// The canonical event payload. Exactly one variant per conversion;
/// `Unknown.raw` holds the full original notification, serialized verbatim.
#[derive(Debug, Clone, PartialEq, Eq)]
pub enum UniversalEventData {
    Started { started: Started },
    Message { message: UniversalMessage },
    Error { error: CrashInfo },
    Unknown { raw: JsonValue },
}

#[verifier::ext_equal]
pub enum UniversalEventDataView {
    Started { started: StartedView },
    Message { message: UniversalMessageView },
    Error { error: CrashInfoView },
    Unknown { raw: JsonData },
}

impl DeepView for UniversalEventData {
    type V = UniversalEventDataView;

    open spec fn deep_view(&self) -> UniversalEventDataView {
        match *self {
            UniversalEventData::Started { started } => UniversalEventDataView::Started {
                started: started.deep_view(),
            },
            UniversalEventData::Message { message } => UniversalEventDataView::Message {
                message: message.deep_view(),
            },
            UniversalEventData::Error { error } => UniversalEventDataView::Error {
                error: error.deep_view(),
            },
            UniversalEventData::Unknown { raw } => UniversalEventDataView::Unknown {
                raw: raw.deep_view(),
            },
        }
    }
}

/// A canonical event plus optional session correlation. Built once per
/// adapter invocation and never mutated afterward.
#[derive(Debug, Clone, PartialEq, Eq)]
pub struct EventConversion {
    pub data: UniversalEventData,
    pub session_id: Option<String>,
}

#[verifier::ext_equal]
pub struct EventConversionView {
    pub data: UniversalEventDataView,
    pub session_id: Option<Seq<char>>,
}

impl DeepView for EventConversion {
    type V = EventConversionView;

    open spec fn deep_view(&self) -> EventConversionView {
        EventConversionView {
            data: self.data.deep_view(),
            session_id: self.session_id.deep_view(),
        }
    }
}

impl EventConversion {
    /// Wrap an event payload with no session correlation yet.
    pub fn new(data: UniversalEventData) -> (r: EventConversion)
        ensures
            r.deep_view() == (EventConversionView {
                data: data.deep_view(),
                session_id: None::<Seq<char>>,
            }),
    {
        EventConversion { data, session_id: None }
    }

    /// Attach (or clear) session correlation, consuming the envelope.
    pub fn with_session(self, session: Option<String>) -> (r: EventConversion)
        ensures
            r.deep_view() == (EventConversionView {
                data: self.data.deep_view(),
                session_id: session.deep_view(),
            }),
    {
        EventConversion { data: self.data, session_id: session }
    }
}

/// The single failure signal of the reverse direction. `Unsupported` is
/// terminal for the event that produced it: the caller should skip emission,
/// not retry.
#[derive(Debug, Clone, Copy, PartialEq, Eq)]
pub enum ConversionError {
    Unsupported(&'static str),
}

impl DeepView for ConversionError {
    type V = Seq<char>;

    open spec fn deep_view(&self) -> Seq<char> {
        match *self {
            ConversionError::Unsupported(reason) => reason@,
        }
    }
}

// ---------------------------------------------------------------------------
// well-formedness

/// Metadata keys are unique within one message.
pub open spec fn metadata_keys_unique(m: Seq<(Seq<char>, JsonData)>) -> bool {
    forall|i: int, j: int| 0 <= i < j < m.len() ==> m[i].0 != m[j].0
}

/// A universal message is well formed when its metadata bag has unique keys.
pub open spec fn message_wf(m: UniversalMessageView) -> bool {
    match m {
        UniversalMessageView::Parsed(p) => metadata_keys_unique(p.metadata),
        UniversalMessageView::Unparsed { .. } => true,
    }
}

/// Every message inside an event payload is well formed.
pub open spec fn event_data_wf(d: UniversalEventDataView) -> bool {
    match d {
        UniversalEventDataView::Message { message } => message_wf(message),
        _ => true,
    }
}

} // verus!
