//! The canonical wire shape of universal events: a JSON value with a stable
//! discriminant field for every variant of the model, so that consumers can
//! interpret events without knowing which backend produced them.

use vstd::prelude::*;
use crate::json::{JsonValue, JsonData, json_clone, json_data_seq, json_data_entries,
    json_data_seq_props, json_data_entries_props};
use crate::model::{
    AttachmentSource, AttachmentSourceView, UniversalMessagePart, UniversalMessagePartView,
    UniversalMessage, UniversalMessageView, UniversalEventData, UniversalEventDataView,
    EventConversion, EventConversionView,
};
use crate::wire::{spec_opt_text_json, spec_opt_value_json, opt_text_json, opt_value_json};

verus! {

broadcast use json_data_seq_props, json_data_entries_props;

/// An optional flag encodes as the flag or as null.
pub open spec fn spec_opt_bool_json(o: Option<bool>) -> JsonData {
    match o {
        Some(b) => JsonData::Bool(b),
        None => JsonData::Null,
    }
}

pub fn opt_bool_json(o: &Option<bool>) -> (r: JsonValue)
    ensures
        r@ == spec_opt_bool_json(*o),
{
    match o {
        Some(b) => JsonValue::Bool(*b),
        None => JsonValue::Null,
    }
}

/// An attachment source as a tagged object.
pub open spec fn spec_attachment_source_json(s: AttachmentSourceView) -> JsonData {
    match s {
        AttachmentSourceView::Url { url } => JsonData::Obj(
            seq![("type"@, JsonData::Text("url"@)), ("url"@, JsonData::Text(url))],
        ),
        AttachmentSourceView::Path { path } => JsonData::Obj(
            seq![("type"@, JsonData::Text("path"@)), ("path"@, JsonData::Text(path))],
        ),
    }
}

pub fn attachment_source_json(s: &AttachmentSource) -> (r: JsonValue)
    ensures
        r@ == spec_attachment_source_json(s.deep_view()),
{
    let mut e: Vec<(String, JsonValue)> = Vec::new();
    match s {
        AttachmentSource::Url { url } => {
            e.push(("type".to_owned(), JsonValue::Text("url".to_owned())));
            e.push(("url".to_owned(), JsonValue::Text(url.clone())));
        },
        AttachmentSource::Path { path } => {
            e.push(("type".to_owned(), JsonValue::Text("path".to_owned())));
            e.push(("path".to_owned(), JsonValue::Text(path.clone())));
        },
    }
    proof {
        assert(json_data_entries(e@) =~= spec_attachment_source_json(s.deep_view())->Obj_0);
    }
    JsonValue::Obj(e)
}

/// A message part as a tagged object.
pub open spec fn spec_part_json(p: UniversalMessagePartView) -> JsonData {
    match p {
        UniversalMessagePartView::Text { text } => JsonData::Obj(
            seq![("type"@, JsonData::Text("text"@)), ("text"@, JsonData::Text(text))],
        ),
        UniversalMessagePartView::Image { source, mime_type, alt, raw } => JsonData::Obj(
            seq![
                ("type"@, JsonData::Text("image"@)),
                ("source"@, spec_attachment_source_json(source)),
                ("mimeType"@, spec_opt_text_json(mime_type)),
                ("alt"@, spec_opt_text_json(alt)),
                ("raw"@, spec_opt_value_json(raw)),
            ],
        ),
        UniversalMessagePartView::ToolCall { id, name, input } => JsonData::Obj(
            seq![
                ("type"@, JsonData::Text("toolCall"@)),
                ("id"@, spec_opt_text_json(id)),
                ("name"@, JsonData::Text(name)),
                ("input"@, input),
            ],
        ),
        UniversalMessagePartView::ToolResult { id, name, output, is_error } => JsonData::Obj(
            seq![
                ("type"@, JsonData::Text("toolResult"@)),
                ("id"@, spec_opt_text_json(id)),
                ("name"@, spec_opt_text_json(name)),
                ("output"@, output),
                ("isError"@, spec_opt_bool_json(is_error)),
            ],
        ),
        UniversalMessagePartView::Unknown { raw } => JsonData::Obj(
            seq![("type"@, JsonData::Text("unknown"@)), ("raw"@, raw)],
        ),
    }
}

pub fn part_json(p: &UniversalMessagePart) -> (r: JsonValue)
    ensures
        r@ == spec_part_json(p.deep_view()),
{
    let mut e: Vec<(String, JsonValue)> = Vec::new();
    match p {
        UniversalMessagePart::Text { text } => {
            e.push(("type".to_owned(), JsonValue::Text("text".to_owned())));
            e.push(("text".to_owned(), JsonValue::Text(text.clone())));
        },
        UniversalMessagePart::Image { source, mime_type, alt, raw } => {
            e.push(("type".to_owned(), JsonValue::Text("image".to_owned())));
            e.push(("source".to_owned(), attachment_source_json(source)));
            e.push(("mimeType".to_owned(), opt_text_json(mime_type)));
            e.push(("alt".to_owned(), opt_text_json(alt)));
            e.push(("raw".to_owned(), opt_value_json(raw)));
        },
        UniversalMessagePart::ToolCall { id, name, input } => {
            e.push(("type".to_owned(), JsonValue::Text("toolCall".to_owned())));
            e.push(("id".to_owned(), opt_text_json(id)));
            e.push(("name".to_owned(), JsonValue::Text(name.clone())));
            e.push(("input".to_owned(), json_clone(input)));
        },
        UniversalMessagePart::ToolResult { id, name, output, is_error } => {
            e.push(("type".to_owned(), JsonValue::Text("toolResult".to_owned())));
            e.push(("id".to_owned(), opt_text_json(id)));
            e.push(("name".to_owned(), opt_text_json(name)));
            e.push(("output".to_owned(), json_clone(output)));
            e.push(("isError".to_owned(), opt_bool_json(is_error)));
        },
        UniversalMessagePart::Unknown { raw } => {
            e.push(("type".to_owned(), JsonValue::Text("unknown".to_owned())));
            e.push(("raw".to_owned(), json_clone(raw)));
        },
    }
    proof {
        assert(json_data_entries(e@) =~= spec_part_json(p.deep_view())->Obj_0);
    }
    JsonValue::Obj(e)
}

/// A universal message as a tagged object. Metadata becomes a JSON object
/// whose entries keep their insertion order.
pub open spec fn spec_message_json(m: UniversalMessageView) -> JsonData {
    match m {
        UniversalMessageView::Parsed(p) => JsonData::Obj(
            seq![
                ("type"@, JsonData::Text("parsed"@)),
                ("role"@, JsonData::Text(p.role)),
                ("id"@, spec_opt_text_json(p.id)),
                ("metadata"@, JsonData::Obj(p.metadata)),
                ("parts"@, JsonData::Arr(p.parts.map_values(
                    |part: UniversalMessagePartView| spec_part_json(part),
                ))),
            ],
        ),
        UniversalMessageView::Unparsed { raw } => JsonData::Obj(
            seq![("type"@, JsonData::Text("unparsed"@)), ("raw"@, raw)],
        ),
    }
}

pub fn message_json(m: &UniversalMessage) -> (r: JsonValue)
    ensures
        r@ == spec_message_json(m.deep_view()),
{
    let mut e: Vec<(String, JsonValue)> = Vec::new();
    match m {
        UniversalMessage::Parsed(p) => {
            e.push(("type".to_owned(), JsonValue::Text("parsed".to_owned())));
            e.push(("role".to_owned(), JsonValue::Text(p.role.clone())));
            e.push(("id".to_owned(), opt_text_json(&p.id)));
            let mut metadata: Vec<(String, JsonValue)> = Vec::new();
            let mut i: usize = 0;
            while i < p.metadata.len()
                invariant
                    i <= p.metadata.len(),
                    metadata@.len() == i as int,
                    forall|j: int| 0 <= j < i ==> metadata@[j].0@ == p.metadata@[j].0@
                        && metadata@[j].1@ == p.metadata@[j].1@,
                decreases p.metadata.len() - i,
            {
                metadata.push((p.metadata[i].0.clone(), json_clone(&p.metadata[i].1)));
                i = i + 1;
            }
            proof {
                assert(json_data_entries(metadata@) =~= p.metadata.deep_view());
            }
            e.push(("metadata".to_owned(), JsonValue::Obj(metadata)));
            let mut parts: Vec<JsonValue> = Vec::new();
            let mut i: usize = 0;
            while i < p.parts.len()
                invariant
                    i <= p.parts.len(),
                    parts@.len() == i as int,
                    forall|j: int| 0 <= j < i ==> parts@[j]@ == spec_part_json(
                        p.parts@[j].deep_view(),
                    ),
                decreases p.parts.len() - i,
            {
                parts.push(part_json(&p.parts[i]));
                i = i + 1;
            }
            proof {
                assert(json_data_seq(parts@) =~= p.parts.deep_view().map_values(
                    |part: UniversalMessagePartView| spec_part_json(part),
                ));
            }
            e.push(("parts".to_owned(), JsonValue::Arr(parts)));
        },
        UniversalMessage::Unparsed { raw } => {
            e.push(("type".to_owned(), JsonValue::Text("unparsed".to_owned())));
            e.push(("raw".to_owned(), json_clone(raw)));
        },
    }
    proof {
        assert(json_data_entries(e@) =~= spec_message_json(m.deep_view())->Obj_0);
    }
    JsonValue::Obj(e)
}

/// An event payload as a tagged object.
pub open spec fn spec_event_data_json(d: UniversalEventDataView) -> JsonData {
    match d {
        UniversalEventDataView::Started { started } => JsonData::Obj(
            seq![
                ("type"@, JsonData::Text("started"@)),
                ("message"@, spec_opt_text_json(started.message)),
                ("details"@, spec_opt_value_json(started.details)),
            ],
        ),
        UniversalEventDataView::Message { message } => JsonData::Obj(
            seq![
                ("type"@, JsonData::Text("message"@)),
                ("message"@, spec_message_json(message)),
            ],
        ),
        UniversalEventDataView::Error { error } => JsonData::Obj(
            seq![
                ("type"@, JsonData::Text("error"@)),
                ("message"@, JsonData::Text(error.message)),
                ("kind"@, spec_opt_text_json(error.kind)),
                ("details"@, spec_opt_value_json(error.details)),
            ],
        ),
        UniversalEventDataView::Unknown { raw } => JsonData::Obj(
            seq![("type"@, JsonData::Text("unknown"@)), ("raw"@, raw)],
        ),
    }
}

pub fn event_data_json(d: &UniversalEventData) -> (r: JsonValue)
    ensures
        r@ == spec_event_data_json(d.deep_view()),
{
    let mut e: Vec<(String, JsonValue)> = Vec::new();
    match d {
        UniversalEventData::Started { started } => {
            e.push(("type".to_owned(), JsonValue::Text("started".to_owned())));
            e.push(("message".to_owned(), opt_text_json(&started.message)));
            e.push(("details".to_owned(), opt_value_json(&started.details)));
        },
        UniversalEventData::Message { message } => {
            e.push(("type".to_owned(), JsonValue::Text("message".to_owned())));
            e.push(("message".to_owned(), message_json(message)));
        },
        UniversalEventData::Error { error } => {
            e.push(("type".to_owned(), JsonValue::Text("error".to_owned())));
            e.push(("message".to_owned(), JsonValue::Text(error.message.clone())));
            e.push(("kind".to_owned(), opt_text_json(&error.kind)));
            e.push(("details".to_owned(), opt_value_json(&error.details)));
        },
        UniversalEventData::Unknown { raw } => {
            e.push(("type".to_owned(), JsonValue::Text("unknown".to_owned())));
            e.push(("raw".to_owned(), json_clone(raw)));
        },
    }
    proof {
        assert(json_data_entries(e@) =~= spec_event_data_json(d.deep_view())->Obj_0);
    }
    JsonValue::Obj(e)
}

/// A conversion envelope as an object: the event payload plus the session.
pub open spec fn spec_conversion_json(c: EventConversionView) -> JsonData {
    JsonData::Obj(
        seq![
            ("data"@, spec_event_data_json(c.data)),
            ("sessionId"@, spec_opt_text_json(c.session_id)),
        ],
    )
}

pub fn conversion_json(c: &EventConversion) -> (r: JsonValue)
    ensures
        r@ == spec_conversion_json(c.deep_view()),
{
    let mut e: Vec<(String, JsonValue)> = Vec::new();
    e.push(("data".to_owned(), event_data_json(&c.data)));
    e.push(("sessionId".to_owned(), opt_text_json(&c.session_id)));
    proof {
        assert(json_data_entries(e@) =~= spec_conversion_json(c.deep_view())->Obj_0);
    }
    JsonValue::Obj(e)
}

} // verus!
