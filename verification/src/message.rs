//! Message document decoder.
//!
//! Each database row carries a textual JSON document describing one
//! message. The decoder projects it onto `MessageContent`: five required
//! fields, a tolerant set of optional fields, and an optional list of
//! attachment records. Unknown fields are ignored; a document that lacks a
//! required field, or types a known field wrongly, fails as a single row
//! and never aborts the pipeline. Document keys are lower-camel-case; the
//! in-memory model is snake-case.

use vstd::prelude::*;
use crate::json::{
    json_parse, models_of, parse_value, value_as_array, value_as_bool, value_as_i64, value_as_str,
    value_field, value_is_null, value_model, JsonModel,
};

verus! {

/// A per-message attachment record: a declared media type and optional
/// identifying fields.
pub struct Attachment {
    pub attachment_identifier: Option<String>,
    pub content_type: String,
    pub file_name: Option<String>,
    pub path: Option<String>,
}

/// The mathematical content of an `Attachment`.
#[verifier::ext_equal]
pub struct AttachmentView {
    pub attachment_identifier: Option<Seq<char>>,
    pub content_type: Seq<char>,
    pub file_name: Option<Seq<char>>,
    pub path: Option<Seq<char>>,
}

/// The view of an optional string.
pub open spec fn opt_view(o: Option<String>) -> Option<Seq<char>> {
    match o {
        Some(s) => Some(s@),
        None => None,
    }
}

impl View for Attachment {
    type V = AttachmentView;

    open spec fn view(&self) -> AttachmentView {
        AttachmentView {
            attachment_identifier: opt_view(self.attachment_identifier),
            content_type: self.content_type@,
            file_name: opt_view(self.file_name),
            path: opt_view(self.path),
        }
    }
}

/// The views of a sequence of attachments.
pub open spec fn att_views(s: Seq<Attachment>) -> Seq<AttachmentView> {
    Seq::new(s.len(), |i: int| s[i]@)
}

/// The structured projection of one message document.
pub struct MessageContent {
    pub timestamp: Option<i64>,
    pub attachments: Option<Vec<Attachment>>,
    pub source: Option<String>,
    pub source_device: Option<i32>,
    pub sent_at: Option<i64>,
    pub received_at: i64,
    pub conversation_id: Option<String>,
    pub unidentified_delivery_received: Option<bool>,
    pub type_: Option<String>,
    pub schema_version: i32,
    pub id: String,
    pub body: Option<String>,
    pub decrypted_at: Option<i64>,
    pub flags: Option<i32>,
    pub has_attachments: Option<i32>,
    pub has_visual_media_attachments: Option<i32>,
    pub is_view_once: Option<bool>,
    pub required_protocol_version: Option<i32>,
    pub supported_version_at_receive: Option<i32>,
    pub read_status: i32,
    pub seen_status: i32,
}

/// The mathematical content of a `MessageContent`.
#[verifier::ext_equal]
pub struct MessageContentView {
    pub timestamp: Option<i64>,
    pub attachments: Option<Seq<AttachmentView>>,
    pub source: Option<Seq<char>>,
    pub source_device: Option<i32>,
    pub sent_at: Option<i64>,
    pub received_at: i64,
    pub conversation_id: Option<Seq<char>>,
    pub unidentified_delivery_received: Option<bool>,
    pub type_: Option<Seq<char>>,
    pub schema_version: i32,
    pub id: Seq<char>,
    pub body: Option<Seq<char>>,
    pub decrypted_at: Option<i64>,
    pub flags: Option<i32>,
    pub has_attachments: Option<i32>,
    pub has_visual_media_attachments: Option<i32>,
    pub is_view_once: Option<bool>,
    pub required_protocol_version: Option<i32>,
    pub supported_version_at_receive: Option<i32>,
    pub read_status: i32,
    pub seen_status: i32,
}

impl View for MessageContent {
    type V = MessageContentView;

    open spec fn view(&self) -> MessageContentView {
        MessageContentView {
            timestamp: self.timestamp,
            attachments: match self.attachments {
                Some(v) => Some(att_views(v@)),
                None => None,
            },
            source: opt_view(self.source),
            source_device: self.source_device,
            sent_at: self.sent_at,
            received_at: self.received_at,
            conversation_id: opt_view(self.conversation_id),
            unidentified_delivery_received: self.unidentified_delivery_received,
            type_: opt_view(self.type_),
            schema_version: self.schema_version,
            id: self.id@,
            body: opt_view(self.body),
            decrypted_at: self.decrypted_at,
            flags: self.flags,
            has_attachments: self.has_attachments,
            has_visual_media_attachments: self.has_visual_media_attachments,
            is_view_once: self.is_view_once,
            required_protocol_version: self.required_protocol_version,
            supported_version_at_receive: self.supported_version_at_receive,
            read_status: self.read_status,
            seen_status: self.seen_status,
        }
    }
}

/// Why one document failed to decode. The `Syntax` detail is the parser's
/// rendered message, kept for diagnosis only.
#[derive(Debug)]
pub enum DecodeError {
    /// The document is not well-formed JSON.
    Syntax(String),
    /// The document is JSON but does not match the message schema.
    Schema,
}

// ---------------------------------------------------------------------
// The decoded form of a document, as spec functions over the JSON model.
// ---------------------------------------------------------------------

/// The field map of a JSON object.
pub open spec fn obj_of(j: JsonModel) -> Option<Map<Seq<char>, JsonModel>> {
    match j {
        JsonModel::Obj(m) => Some(m),
        _ => None,
    }
}

/// A required integer field: present and an integer that fits in `i64`.
pub open spec fn req_i64(m: Map<Seq<char>, JsonModel>, key: Seq<char>) -> Option<i64> {
    if m.contains_key(key) {
        match m[key] {
            JsonModel::Num(rep) => rep,
            _ => None,
        }
    } else {
        None
    }
}

/// A required integer field that must also fit in `i32`.
pub open spec fn req_i32(m: Map<Seq<char>, JsonModel>, key: Seq<char>) -> Option<i32> {
    match req_i64(m, key) {
        Some(i) => if i32::MIN as i64 <= i && i <= i32::MAX as i64 {
            Some(i as i32)
        } else {
            None
        },
        None => None,
    }
}

/// A required string field.
pub open spec fn req_str(m: Map<Seq<char>, JsonModel>, key: Seq<char>) -> Option<Seq<char>> {
    if m.contains_key(key) {
        match m[key] {
            JsonModel::Str(s) => Some(s),
            _ => None,
        }
    } else {
        None
    }
}

/// An optional integer field: absent or null decodes as `None`; a present
/// non-integer is a schema mismatch (the outer `Option` is `None`).
pub open spec fn opt_i64(m: Map<Seq<char>, JsonModel>, key: Seq<char>) -> Option<Option<i64>> {
    if !m.contains_key(key) {
        Some(None)
    } else {
        match m[key] {
            JsonModel::Null => Some(None),
            JsonModel::Num(rep) => match rep {
                Some(i) => Some(Some(i)),
                None => None,
            },
            _ => None,
        }
    }
}

/// An optional integer field that must also fit in `i32` when present.
pub open spec fn opt_i32(m: Map<Seq<char>, JsonModel>, key: Seq<char>) -> Option<Option<i32>> {
    match opt_i64(m, key) {
        Some(o) => match o {
            Some(i) => if i32::MIN as i64 <= i && i <= i32::MAX as i64 {
                Some(Some(i as i32))
            } else {
                None
            },
            None => Some(None),
        },
        None => None,
    }
}

/// An optional string field.
pub open spec fn opt_str(m: Map<Seq<char>, JsonModel>, key: Seq<char>) -> Option<
    Option<Seq<char>>,
> {
    if !m.contains_key(key) {
        Some(None)
    } else {
        match m[key] {
            JsonModel::Null => Some(None),
            JsonModel::Str(s) => Some(Some(s)),
            _ => None,
        }
    }
}

/// An optional boolean field.
pub open spec fn opt_bool(m: Map<Seq<char>, JsonModel>, key: Seq<char>) -> Option<Option<bool>> {
    if !m.contains_key(key) {
        Some(None)
    } else {
        match m[key] {
            JsonModel::Null => Some(None),
            JsonModel::Bool(b) => Some(Some(b)),
            _ => None,
        }
    }
}

/// The decoded form of one attachment record: an object with a required
/// string `contentType` and three optional strings.
pub open spec fn attachment_of(j: JsonModel) -> Option<AttachmentView> {
    match obj_of(j) {
        Some(m) => match (req_str(m, "contentType"@), opt_str(m, "attachmentIdentifier"@), opt_str(
            m,
            "fileName"@,
        ), opt_str(m, "path"@)) {
            (Some(ct), Some(ai), Some(fname), Some(p)) => Some(
                AttachmentView {
                    attachment_identifier: ai,
                    content_type: ct,
                    file_name: fname,
                    path: p,
                },
            ),
            _ => None,
        },
        None => None,
    }
}

/// The decoded form of a whole attachments array; `None` as soon as one
/// element fails.
pub open spec fn attachments_seq(s: Seq<JsonModel>) -> Option<Seq<AttachmentView>>
    decreases s.len(),
{
    if s.len() == 0 {
        Some(Seq::empty())
    } else {
        match (attachments_seq(s.drop_last()), attachment_of(s.last())) {
            (Some(rest), Some(a)) => Some(rest.push(a)),
            _ => None,
        }
    }
}

/// The optional `attachments` field: absent or null decodes as `None`; a
/// present value must be an array whose every element decodes.
pub open spec fn opt_attachments(m: Map<Seq<char>, JsonModel>) -> Option<
    Option<Seq<AttachmentView>>,
> {
    if !m.contains_key("attachments"@) {
        Some(None)
    } else {
        match m["attachments"@] {
            JsonModel::Null => Some(None),
            JsonModel::Arr(s) => match attachments_seq(s) {
                Some(a) => Some(Some(a)),
                None => None,
            },
            _ => None,
        }
    }
}

/// Whether a parsed document decodes: it is an object, every required
/// field is present with the right type, and every known optional field
/// that is present has the right type.
pub open spec fn decodable(j: JsonModel) -> bool {
    &&& obj_of(j) is Some
    &&& {
        let m = obj_of(j).unwrap();
        &&& req_i64(m, "receivedAt"@) is Some
        &&& req_i32(m, "schemaVersion"@) is Some
        &&& req_str(m, "id"@) is Some
        &&& req_i32(m, "readStatus"@) is Some
        &&& req_i32(m, "seenStatus"@) is Some
        &&& opt_i64(m, "timestamp"@) is Some
        &&& opt_i64(m, "sentAt"@) is Some
        &&& opt_str(m, "source"@) is Some
        &&& opt_i32(m, "sourceDevice"@) is Some
        &&& opt_str(m, "conversationId"@) is Some
        &&& opt_bool(m, "unidentifiedDeliveryReceived"@) is Some
        &&& opt_str(m, "type"@) is Some
        &&& opt_str(m, "body"@) is Some
        &&& opt_i64(m, "decryptedAt"@) is Some
        &&& opt_i32(m, "flags"@) is Some
        &&& opt_i32(m, "hasAttachments"@) is Some
        &&& opt_i32(m, "hasVisualMediaAttachments"@) is Some
        &&& opt_bool(m, "isViewOnce"@) is Some
        &&& opt_i32(m, "requiredProtocolVersion"@) is Some
        &&& opt_i32(m, "supportedVersionAtReceive"@) is Some
        &&& opt_attachments(m) is Some
    }
}

/// The decoded content of a decodable document.
pub open spec fn decoded(j: JsonModel) -> MessageContentView
    recommends
        decodable(j),
{
    let m = obj_of(j).unwrap();
    MessageContentView {
        timestamp: opt_i64(m, "timestamp"@).unwrap(),
        attachments: opt_attachments(m).unwrap(),
        source: opt_str(m, "source"@).unwrap(),
        source_device: opt_i32(m, "sourceDevice"@).unwrap(),
        sent_at: opt_i64(m, "sentAt"@).unwrap(),
        received_at: req_i64(m, "receivedAt"@).unwrap(),
        conversation_id: opt_str(m, "conversationId"@).unwrap(),
        unidentified_delivery_received: opt_bool(m, "unidentifiedDeliveryReceived"@).unwrap(),
        type_: opt_str(m, "type"@).unwrap(),
        schema_version: req_i32(m, "schemaVersion"@).unwrap(),
        id: req_str(m, "id"@).unwrap(),
        body: opt_str(m, "body"@).unwrap(),
        decrypted_at: opt_i64(m, "decryptedAt"@).unwrap(),
        flags: opt_i32(m, "flags"@).unwrap(),
        has_attachments: opt_i32(m, "hasAttachments"@).unwrap(),
        has_visual_media_attachments: opt_i32(m, "hasVisualMediaAttachments"@).unwrap(),
        is_view_once: opt_bool(m, "isViewOnce"@).unwrap(),
        required_protocol_version: opt_i32(m, "requiredProtocolVersion"@).unwrap(),
        supported_version_at_receive: opt_i32(m, "supportedVersionAtReceive"@).unwrap(),
        read_status: req_i32(m, "readStatus"@).unwrap(),
        seen_status: req_i32(m, "seenStatus"@).unwrap(),
    }
}

// ---------------------------------------------------------------------
// Executable field readers, each exact against its spec combinator.
// ---------------------------------------------------------------------

fn req_i64_exec(v: &serde_json::Value, key: &str) -> (r: Option<i64>)
    ensures
        obj_of(value_model(*v)) matches Some(m) ==> r == req_i64(m, key@),
        obj_of(value_model(*v)) is None ==> r is None,
{
    match value_field(v, key) {
        Some(f) => value_as_i64(f),
        None => None,
    }
}

fn req_i32_exec(v: &serde_json::Value, key: &str) -> (r: Option<i32>)
    ensures
        obj_of(value_model(*v)) matches Some(m) ==> r == req_i32(m, key@),
        obj_of(value_model(*v)) is None ==> r is None,
{
    match req_i64_exec(v, key) {
        Some(i) => {
            if i32::MIN as i64 <= i && i <= i32::MAX as i64 {
                Some(i as i32)
            } else {
                None
            }
        },
        None => None,
    }
}

fn req_str_exec(v: &serde_json::Value, key: &str) -> (r: Option<String>)
    ensures
        obj_of(value_model(*v)) matches Some(m) ==> {
            &&& r is Some <==> req_str(m, key@) is Some
            &&& (r matches Some(s) ==> req_str(m, key@) == Some(s@))
        },
        obj_of(value_model(*v)) is None ==> r is None,
{
    match value_field(v, key) {
        Some(f) => match value_as_str(f) {
            Some(s) => Some(s.to_owned()),
            None => None,
        },
        None => None,
    }
}

fn opt_i64_exec(v: &serde_json::Value, key: &str) -> (r: Option<Option<i64>>)
    ensures
        obj_of(value_model(*v)) matches Some(m) ==> r == opt_i64(m, key@),
{
    match value_field(v, key) {
        Some(f) => {
            if value_is_null(f) {
                Some(None)
            } else {
                match value_as_i64(f) {
                    Some(i) => Some(Some(i)),
                    None => None,
                }
            }
        },
        None => Some(None),
    }
}

fn opt_i32_exec(v: &serde_json::Value, key: &str) -> (r: Option<Option<i32>>)
    ensures
        obj_of(value_model(*v)) matches Some(m) ==> r == opt_i32(m, key@),
{
    match opt_i64_exec(v, key) {
        Some(o) => match o {
            Some(i) => {
                if i32::MIN as i64 <= i && i <= i32::MAX as i64 {
                    Some(Some(i as i32))
                } else {
                    None
                }
            },
            None => Some(None),
        },
        None => None,
    }
}

fn opt_str_exec(v: &serde_json::Value, key: &str) -> (r: Option<Option<String>>)
    ensures
        obj_of(value_model(*v)) matches Some(m) ==> {
            &&& r is Some <==> opt_str(m, key@) is Some
            &&& (r matches Some(o) ==> opt_str(m, key@) == Some(opt_view(o)))
        },
{
    match value_field(v, key) {
        Some(f) => {
            if value_is_null(f) {
                Some(None)
            } else {
                match value_as_str(f) {
                    Some(s) => Some(Some(s.to_owned())),
                    None => None,
                }
            }
        },
        None => Some(None),
    }
}

fn opt_bool_exec(v: &serde_json::Value, key: &str) -> (r: Option<Option<bool>>)
    ensures
        obj_of(value_model(*v)) matches Some(m) ==> r == opt_bool(m, key@),
{
    match value_field(v, key) {
        Some(f) => {
            if value_is_null(f) {
                Some(None)
            } else {
                match value_as_bool(f) {
                    Some(b) => Some(Some(b)),
                    None => None,
                }
            }
        },
        None => Some(None),
    }
}

/// Decodes one attachment record.
fn decode_attachment(v: &serde_json::Value) -> (r: Option<Attachment>)
    ensures
        r is Some <==> attachment_of(value_model(*v)) is Some,
        r matches Some(a) ==> attachment_of(value_model(*v)) == Some(a@),
{
    let content_type = match req_str_exec(v, "contentType") {
        Some(s) => s,
        None => {
            return None;
        },
    };
    let attachment_identifier = match opt_str_exec(v, "attachmentIdentifier") {
        Some(o) => o,
        None => {
            return None;
        },
    };
    let file_name = match opt_str_exec(v, "fileName") {
        Some(o) => o,
        None => {
            return None;
        },
    };
    let path = match opt_str_exec(v, "path") {
        Some(o) => o,
        None => {
            return None;
        },
    };
    Some(Attachment { attachment_identifier, content_type, file_name, path })
}

/// If one element of an attachments array fails to decode, the whole
/// array does.
proof fn lemma_attachments_seq_fails(s: Seq<JsonModel>, i: int)
    requires
        0 <= i < s.len(),
        attachment_of(s[i]) is None,
    ensures
        attachments_seq(s) is None,
    decreases s.len(),
{
    if i == s.len() - 1 {
    } else {
        lemma_attachments_seq_fails(s.drop_last(), i);
    }
}

/// Decodes every element of an attachments array, in order.
fn decode_attachments(arr: &Vec<serde_json::Value>) -> (r: Option<Vec<Attachment>>)
    ensures
        r is Some <==> attachments_seq(models_of(arr@)) is Some,
        r matches Some(v) ==> attachments_seq(models_of(arr@)) == Some(att_views(v@)),
{
    let ghost s = models_of(arr@);
    let mut out: Vec<Attachment> = Vec::new();
    let mut i: usize = 0;
    while i < arr.len()
        invariant
            0 <= i <= arr@.len(),
            s == models_of(arr@),
            attachments_seq(s.take(i as int)) == Some(att_views(out@)),
            out@.len() == i,
        decreases arr@.len() - i,
    {
        match decode_attachment(&arr[i]) {
            Some(a) => {
                out.push(a);
            },
            None => {
                proof {
                    lemma_attachments_seq_fails(s, i as int);
                }
                return None;
            },
        }
        i = i + 1;
        proof {
            assert(s.take(i as int).drop_last() =~= s.take(i as int - 1));
            assert(s.take(i as int).last() == s[i as int - 1]);
            assert(att_views(out@) =~= att_views(out@.drop_last()).push(out@.last()@));
        }
    }
    proof {
        assert(s.take(arr@.len() as int) =~= s);
    }
    Some(out)
}

/// Decodes a parsed document into structured message content.
pub fn decode_value(v: &serde_json::Value) -> (r: Result<MessageContent, DecodeError>)
    ensures
        !decodable(value_model(*v)) ==> (r matches Err(e) && e is Schema),
        decodable(value_model(*v)) ==> {
            &&& r is Ok
            &&& (r matches Ok(msg) ==> msg@ == decoded(value_model(*v)))
        },
{
    let received_at = match req_i64_exec(v, "receivedAt") {
        Some(i) => i,
        None => {
            return Err(DecodeError::Schema);
        },
    };
    let schema_version = match req_i32_exec(v, "schemaVersion") {
        Some(i) => i,
        None => {
            return Err(DecodeError::Schema);
        },
    };
    let id = match req_str_exec(v, "id") {
        Some(s) => s,
        None => {
            return Err(DecodeError::Schema);
        },
    };
    let read_status = match req_i32_exec(v, "readStatus") {
        Some(i) => i,
        None => {
            return Err(DecodeError::Schema);
        },
    };
    let seen_status = match req_i32_exec(v, "seenStatus") {
        Some(i) => i,
        None => {
            return Err(DecodeError::Schema);
        },
    };
    let timestamp = match opt_i64_exec(v, "timestamp") {
        Some(o) => o,
        None => {
            return Err(DecodeError::Schema);
        },
    };
    let sent_at = match opt_i64_exec(v, "sentAt") {
        Some(o) => o,
        None => {
            return Err(DecodeError::Schema);
        },
    };
    let source = match opt_str_exec(v, "source") {
        Some(o) => o,
        None => {
            return Err(DecodeError::Schema);
        },
    };
    let source_device = match opt_i32_exec(v, "sourceDevice") {
        Some(o) => o,
        None => {
            return Err(DecodeError::Schema);
        },
    };
    let conversation_id = match opt_str_exec(v, "conversationId") {
        Some(o) => o,
        None => {
            return Err(DecodeError::Schema);
        },
    };
    let unidentified_delivery_received = match opt_bool_exec(v, "unidentifiedDeliveryReceived") {
        Some(o) => o,
        None => {
            return Err(DecodeError::Schema);
        },
    };
    let type_ = match opt_str_exec(v, "type") {
        Some(o) => o,
        None => {
            return Err(DecodeError::Schema);
        },
    };
    let body = match opt_str_exec(v, "body") {
        Some(o) => o,
        None => {
            return Err(DecodeError::Schema);
        },
    };
    let decrypted_at = match opt_i64_exec(v, "decryptedAt") {
        Some(o) => o,
        None => {
            return Err(DecodeError::Schema);
        },
    };
    let flags = match opt_i32_exec(v, "flags") {
        Some(o) => o,
        None => {
            return Err(DecodeError::Schema);
        },
    };
    let has_attachments = match opt_i32_exec(v, "hasAttachments") {
        Some(o) => o,
        None => {
            return Err(DecodeError::Schema);
        },
    };
    let has_visual_media_attachments = match opt_i32_exec(v, "hasVisualMediaAttachments") {
        Some(o) => o,
        None => {
            return Err(DecodeError::Schema);
        },
    };
    let is_view_once = match opt_bool_exec(v, "isViewOnce") {
        Some(o) => o,
        None => {
            return Err(DecodeError::Schema);
        },
    };
    let required_protocol_version = match opt_i32_exec(v, "requiredProtocolVersion") {
        Some(o) => o,
        None => {
            return Err(DecodeError::Schema);
        },
    };
    let supported_version_at_receive = match opt_i32_exec(v, "supportedVersionAtReceive") {
        Some(o) => o,
        None => {
            return Err(DecodeError::Schema);
        },
    };
    let attachments: Option<Vec<Attachment>> = match value_field(v, "attachments") {
        None => None,
        Some(f) => {
            if value_is_null(f) {
                None
            } else {
                match value_as_array(f) {
                    Some(arr) => match decode_attachments(arr) {
                        Some(list) => {
                            proof {
                                let ghost m = obj_of(value_model(*v)).unwrap();
                                assert(m["attachments"@] matches JsonModel::Arr(es)
                                    ==> models_of(arr@) =~= es);
                            }
                            Some(list)
                        },
                        None => {
                            proof {
                                let ghost m = obj_of(value_model(*v)).unwrap();
                                assert(m["attachments"@] matches JsonModel::Arr(es)
                                    ==> models_of(arr@) =~= es);
                            }
                            return Err(DecodeError::Schema);
                        },
                    },
                    None => {
                        return Err(DecodeError::Schema);
                    },
                }
            }
        },
    };
    let msg = MessageContent {
        timestamp,
        attachments,
        source,
        source_device,
        sent_at,
        received_at,
        conversation_id,
        unidentified_delivery_received,
        type_,
        schema_version,
        id,
        body,
        decrypted_at,
        flags,
        has_attachments,
        has_visual_media_attachments,
        is_view_once,
        required_protocol_version,
        supported_version_at_receive,
        read_status,
        seen_status,
    };
    proof {
        assert(msg@ =~= decoded(value_model(*v)));
    }
    Ok(msg)
}

/// Decodes one row's textual document. The decoder is a pure function of
/// the text: well-formed, decodable documents yield exactly the projected
/// content; everything else fails as a single row.
pub fn decode(text: &str) -> (r: Result<MessageContent, DecodeError>)
    ensures
        json_parse(text@) is None ==> (r matches Err(e) && e is Syntax),
        json_parse(text@) matches Some(j) ==> {
            &&& !decodable(j) ==> (r matches Err(e) && e is Schema)
            &&& decodable(j) ==> (r matches Ok(msg) && msg@ == decoded(j))
        },
{
    match parse_value(text) {
        Ok(v) => decode_value(&v),
        Err(detail) => Err(DecodeError::Syntax(detail)),
    }
}

/// Law: the decoder is a pure function of the document text. Any two
/// decode results of the same decodable document have the same content.
pub proof fn lemma_decode_deterministic(
    text: Seq<char>,
    m1: MessageContentView,
    m2: MessageContentView,
)
    requires
        json_parse(text) matches Some(j) && decodable(j),
        m1 == decoded(json_parse(text).unwrap()),
        m2 == decoded(json_parse(text).unwrap()),
    ensures
        m1 == m2,
{
}

/// Law: decoding preserves every required field of a decodable document
/// bit-exactly.
pub proof fn lemma_decode_preserves_required_fields(j: JsonModel)
    requires
        decodable(j),
    ensures
        decoded(j).received_at == req_i64(obj_of(j).unwrap(), "receivedAt"@).unwrap(),
        decoded(j).schema_version == req_i32(obj_of(j).unwrap(), "schemaVersion"@).unwrap(),
        decoded(j).id == req_str(obj_of(j).unwrap(), "id"@).unwrap(),
        decoded(j).read_status == req_i32(obj_of(j).unwrap(), "readStatus"@).unwrap(),
        decoded(j).seen_status == req_i32(obj_of(j).unwrap(), "seenStatus"@).unwrap(),
{
}

} // verus!
