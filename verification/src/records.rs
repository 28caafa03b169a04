//! The leaf event records of the three structural shapes, and the
//! field-level rules for decoding them from, and encoding them to, a
//! structured value.
//!
//! A known discriminator selects one of the shaped records (`BasicEvent`,
//! `RoomScopedEvent`, `StateScopedEvent`); an unrecognized discriminator
//! selects one of the custom records, whose room metadata is optional so
//! that arbitrary unrecognized payloads still decode.
//!
//! Decoding reads the fields of one object. Required metadata fields must be
//! JSON strings; `content` may be any value and is carried whole. Faults are
//! reported for the metadata fields first, in the order `event_id`,
//! `room_id`, `sender`, `state_key`, and for `content` last.

use vstd::prelude::*;

use crate::event_type::EventType;
use crate::event_type::spec_tag;
use crate::json::JsonValue;
use crate::json::get_field;
use crate::json::take_field;
use crate::json::spec_lookup;
use crate::json::spec_obj_fields;
use crate::json::lemma_lookup_push;
use crate::json::lemma_field_names_distinct;

verus! {

/// A field of an event record, named in decode faults.
#[derive(Clone, Copy, Debug, PartialEq, Eq)]
pub enum FieldId {
    Content,
    EventId,
    RoomId,
    Sender,
    StateKey,
}

/// Why a record failed its structural decode: a required field was absent,
/// or a field was present with the wrong shape.
#[derive(Clone, Copy, Debug, PartialEq, Eq)]
pub enum FieldFault {
    Missing(FieldId),
    Invalid(FieldId),
}

/// Why a container decode failed.
#[derive(Clone, Copy, Debug, PartialEq, Eq)]
pub enum DecodeError {
    /// The input has no `"type"` field.
    MissingDiscriminator,
    /// The `"type"` field is present but is not a string.
    MalformedDiscriminator,
    /// The selected record failed its structural decode.
    LeafDecodeFailure(FieldFault),
    /// A known discriminator that the container does not admit.
    IllegalMemberForContainer,
}

/// A basic-shape event: bare content plus its discriminator.
#[derive(Debug, PartialEq)]
pub struct BasicEvent {
    pub content: JsonValue,
    pub event_type: EventType,
}

/// A room-scoped event: content, discriminator, and room metadata.
#[derive(Debug, PartialEq)]
pub struct RoomScopedEvent {
    pub content: JsonValue,
    pub event_type: EventType,
    pub event_id: String,
    pub room_id: String,
    pub sender: String,
}

/// A state event: room-scoped metadata plus a `state_key`.
#[derive(Debug, PartialEq)]
pub struct StateScopedEvent {
    pub content: JsonValue,
    pub event_type: EventType,
    pub event_id: String,
    pub room_id: String,
    pub sender: String,
    pub state_key: String,
}

/// A basic event outside the catalog.
#[derive(Debug, PartialEq)]
pub struct CustomEvent {
    pub content: JsonValue,
    pub event_type: EventType,
}

/// A room event outside the catalog. Its room metadata is optional: an
/// unrecognized payload classified as room-scoped decodes even when the
/// metadata is absent.
#[derive(Debug, PartialEq)]
pub struct CustomRoomEvent {
    pub content: JsonValue,
    pub event_type: EventType,
    pub event_id: Option<String>,
    pub room_id: Option<String>,
    pub sender: Option<String>,
}

/// A state event outside the catalog: optional room metadata plus the
/// required `state_key`.
#[derive(Debug, PartialEq)]
pub struct CustomStateEvent {
    pub content: JsonValue,
    pub event_type: EventType,
    pub event_id: Option<String>,
    pub room_id: Option<String>,
    pub sender: Option<String>,
    pub state_key: String,
}

/// The first of two possible faults.
pub open spec fn first_fault(a: Option<FieldFault>, b: Option<FieldFault>) -> Option<FieldFault> {
    if a is Some {
        a
    } else {
        b
    }
}

/// The fault of a required string field: absent, or present but not a string.
pub open spec fn spec_string_field_err(
    fields: Seq<(String, JsonValue)>,
    key: Seq<char>,
    id: FieldId,
) -> Option<FieldFault> {
    match spec_lookup(fields, key) {
        None => Some(FieldFault::Missing(id)),
        Some(v) => if v matches JsonValue::Str(_) {
            None
        } else {
            Some(FieldFault::Invalid(id))
        },
    }
}

/// The fault of an optional string field: only present-but-not-a-string.
pub open spec fn spec_opt_string_field_err(
    fields: Seq<(String, JsonValue)>,
    key: Seq<char>,
    id: FieldId,
) -> Option<FieldFault> {
    match spec_lookup(fields, key) {
        None => None,
        Some(v) => if v matches JsonValue::Str(_) {
            None
        } else {
            Some(FieldFault::Invalid(id))
        },
    }
}

/// The fault of the `content` field: it may have any shape, so only absence.
pub open spec fn spec_content_err(fields: Seq<(String, JsonValue)>) -> Option<FieldFault> {
    if spec_lookup(fields, "content"@) is None {
        Some(FieldFault::Missing(FieldId::Content))
    } else {
        None
    }
}

/// The decode fault of a basic record, if any.
pub open spec fn spec_basic_err(fields: Seq<(String, JsonValue)>) -> Option<FieldFault> {
    spec_content_err(fields)
}

/// The decode fault of a room-scoped record, if any.
pub open spec fn spec_room_err(fields: Seq<(String, JsonValue)>) -> Option<FieldFault> {
    first_fault(
        spec_string_field_err(fields, "event_id"@, FieldId::EventId),
        first_fault(
            spec_string_field_err(fields, "room_id"@, FieldId::RoomId),
            first_fault(
                spec_string_field_err(fields, "sender"@, FieldId::Sender),
                spec_content_err(fields),
            ),
        ),
    )
}

/// The decode fault of a state record, if any.
pub open spec fn spec_state_err(fields: Seq<(String, JsonValue)>) -> Option<FieldFault> {
    first_fault(
        spec_string_field_err(fields, "event_id"@, FieldId::EventId),
        first_fault(
            spec_string_field_err(fields, "room_id"@, FieldId::RoomId),
            first_fault(
                spec_string_field_err(fields, "sender"@, FieldId::Sender),
                first_fault(
                    spec_string_field_err(fields, "state_key"@, FieldId::StateKey),
                    spec_content_err(fields),
                ),
            ),
        ),
    )
}

/// The decode fault of a custom room record, if any.
pub open spec fn spec_custom_room_err(fields: Seq<(String, JsonValue)>) -> Option<FieldFault> {
    first_fault(
        spec_opt_string_field_err(fields, "event_id"@, FieldId::EventId),
        first_fault(
            spec_opt_string_field_err(fields, "room_id"@, FieldId::RoomId),
            first_fault(
                spec_opt_string_field_err(fields, "sender"@, FieldId::Sender),
                spec_content_err(fields),
            ),
        ),
    )
}

/// The decode fault of a custom state record, if any.
pub open spec fn spec_custom_state_err(fields: Seq<(String, JsonValue)>) -> Option<FieldFault> {
    first_fault(
        spec_opt_string_field_err(fields, "event_id"@, FieldId::EventId),
        first_fault(
            spec_opt_string_field_err(fields, "room_id"@, FieldId::RoomId),
            first_fault(
                spec_opt_string_field_err(fields, "sender"@, FieldId::Sender),
                first_fault(
                    spec_string_field_err(fields, "state_key"@, FieldId::StateKey),
                    spec_content_err(fields),
                ),
            ),
        ),
    )
}

/// A required string field decoded to `s`.
pub open spec fn spec_req_string_from(
    fields: Seq<(String, JsonValue)>,
    key: Seq<char>,
    s: String,
) -> bool {
    spec_lookup(fields, key) == Some(JsonValue::Str(s))
}

/// An optional string field decoded to `o`.
pub open spec fn spec_opt_string_from(
    fields: Seq<(String, JsonValue)>,
    key: Seq<char>,
    o: Option<String>,
) -> bool {
    match spec_lookup(fields, key) {
        None => o is None,
        Some(v) => v matches JsonValue::Str(s) && o == Some(s),
    }
}

/// A basic record decoded from `fields`.
pub open spec fn spec_basic_from(fields: Seq<(String, JsonValue)>, rec: BasicEvent) -> bool {
    spec_lookup(fields, "content"@) == Some(rec.content)
}

/// A room-scoped record decoded from `fields`.
pub open spec fn spec_room_from(fields: Seq<(String, JsonValue)>, rec: RoomScopedEvent) -> bool {
    &&& spec_lookup(fields, "content"@) == Some(rec.content)
    &&& spec_req_string_from(fields, "event_id"@, rec.event_id)
    &&& spec_req_string_from(fields, "room_id"@, rec.room_id)
    &&& spec_req_string_from(fields, "sender"@, rec.sender)
}

/// A state record decoded from `fields`.
pub open spec fn spec_state_from(fields: Seq<(String, JsonValue)>, rec: StateScopedEvent) -> bool {
    &&& spec_lookup(fields, "content"@) == Some(rec.content)
    &&& spec_req_string_from(fields, "event_id"@, rec.event_id)
    &&& spec_req_string_from(fields, "room_id"@, rec.room_id)
    &&& spec_req_string_from(fields, "sender"@, rec.sender)
    &&& spec_req_string_from(fields, "state_key"@, rec.state_key)
}

/// A custom basic record decoded from `fields`.
pub open spec fn spec_custom_basic_from(
    fields: Seq<(String, JsonValue)>,
    rec: CustomEvent,
) -> bool {
    spec_lookup(fields, "content"@) == Some(rec.content)
}

/// A custom room record decoded from `fields`.
pub open spec fn spec_custom_room_from(
    fields: Seq<(String, JsonValue)>,
    rec: CustomRoomEvent,
) -> bool {
    &&& spec_lookup(fields, "content"@) == Some(rec.content)
    &&& spec_opt_string_from(fields, "event_id"@, rec.event_id)
    &&& spec_opt_string_from(fields, "room_id"@, rec.room_id)
    &&& spec_opt_string_from(fields, "sender"@, rec.sender)
}

/// A custom state record decoded from `fields`.
pub open spec fn spec_custom_state_from(
    fields: Seq<(String, JsonValue)>,
    rec: CustomStateEvent,
) -> bool {
    &&& spec_lookup(fields, "content"@) == Some(rec.content)
    &&& spec_opt_string_from(fields, "event_id"@, rec.event_id)
    &&& spec_opt_string_from(fields, "room_id"@, rec.room_id)
    &&& spec_opt_string_from(fields, "sender"@, rec.sender)
    &&& spec_req_string_from(fields, "state_key"@, rec.state_key)
}

/// Reads a required string field, cloning its payload.
pub(crate) fn req_string(fields: &Vec<(String, JsonValue)>, key: &str, id: FieldId) -> (r: Result<
    String,
    FieldFault,
>)
    ensures
        match r {
            Ok(s) => spec_string_field_err(fields@, key@, id) is None && spec_req_string_from(
                fields@,
                key@,
                s,
            ),
            Err(f) => spec_string_field_err(fields@, key@, id) == Some(f),
        },
{
    match get_field(fields, key) {
        None => Err(FieldFault::Missing(id)),
        Some(JsonValue::Str(s)) => Ok(s.clone()),
        Some(_) => Err(FieldFault::Invalid(id)),
    }
}

/// Reads an optional string field, cloning its payload when present.
fn opt_string(fields: &Vec<(String, JsonValue)>, key: &str, id: FieldId) -> (r: Result<
    Option<String>,
    FieldFault,
>)
    ensures
        match r {
            Ok(o) => spec_opt_string_field_err(fields@, key@, id) is None && spec_opt_string_from(
                fields@,
                key@,
                o,
            ),
            Err(f) => spec_opt_string_field_err(fields@, key@, id) == Some(f),
        },
{
    match get_field(fields, key) {
        None => Ok(None),
        Some(JsonValue::Str(s)) => Ok(Some(s.clone())),
        Some(_) => Err(FieldFault::Invalid(id)),
    }
}

/// Decodes a basic record from an object's fields, with `t` as its
/// discriminator.
pub fn parse_basic(fields: Vec<(String, JsonValue)>, t: EventType) -> (r: Result<
    BasicEvent,
    FieldFault,
>)
    ensures
        match r {
            Ok(rec) => spec_basic_err(fields@) is None && spec_basic_from(fields@, rec)
                && rec.event_type == t,
            Err(f) => spec_basic_err(fields@) == Some(f),
        },
{
    let mut fs = fields;
    match take_field(&mut fs, "content") {
        Some(content) => Ok(BasicEvent { content, event_type: t }),
        None => Err(FieldFault::Missing(FieldId::Content)),
    }
}

/// Decodes a room-scoped record from an object's fields, with `t` as its
/// discriminator.
pub fn parse_room_scoped(fields: Vec<(String, JsonValue)>, t: EventType) -> (r: Result<
    RoomScopedEvent,
    FieldFault,
>)
    ensures
        match r {
            Ok(rec) => spec_room_err(fields@) is None && spec_room_from(fields@, rec)
                && rec.event_type == t,
            Err(f) => spec_room_err(fields@) == Some(f),
        },
{
    let event_id = match req_string(&fields, "event_id", FieldId::EventId) {
        Ok(s) => s,
        Err(f) => return Err(f),
    };
    let room_id = match req_string(&fields, "room_id", FieldId::RoomId) {
        Ok(s) => s,
        Err(f) => return Err(f),
    };
    let sender = match req_string(&fields, "sender", FieldId::Sender) {
        Ok(s) => s,
        Err(f) => return Err(f),
    };
    let mut fs = fields;
    match take_field(&mut fs, "content") {
        Some(content) => Ok(RoomScopedEvent { content, event_type: t, event_id, room_id, sender }),
        None => Err(FieldFault::Missing(FieldId::Content)),
    }
}

/// Decodes a state record from an object's fields, with `t` as its
/// discriminator.
pub fn parse_state_scoped(fields: Vec<(String, JsonValue)>, t: EventType) -> (r: Result<
    StateScopedEvent,
    FieldFault,
>)
    ensures
        match r {
            Ok(rec) => spec_state_err(fields@) is None && spec_state_from(fields@, rec)
                && rec.event_type == t,
            Err(f) => spec_state_err(fields@) == Some(f),
        },
{
    let event_id = match req_string(&fields, "event_id", FieldId::EventId) {
        Ok(s) => s,
        Err(f) => return Err(f),
    };
    let room_id = match req_string(&fields, "room_id", FieldId::RoomId) {
        Ok(s) => s,
        Err(f) => return Err(f),
    };
    let sender = match req_string(&fields, "sender", FieldId::Sender) {
        Ok(s) => s,
        Err(f) => return Err(f),
    };
    let state_key = match req_string(&fields, "state_key", FieldId::StateKey) {
        Ok(s) => s,
        Err(f) => return Err(f),
    };
    let mut fs = fields;
    match take_field(&mut fs, "content") {
        Some(content) => Ok(
            StateScopedEvent { content, event_type: t, event_id, room_id, sender, state_key },
        ),
        None => Err(FieldFault::Missing(FieldId::Content)),
    }
}

/// Decodes a custom basic record from an object's fields, with `t` as its
/// discriminator.
pub fn parse_custom_basic(fields: Vec<(String, JsonValue)>, t: EventType) -> (r: Result<
    CustomEvent,
    FieldFault,
>)
    ensures
        match r {
            Ok(rec) => spec_basic_err(fields@) is None && spec_custom_basic_from(fields@, rec)
                && rec.event_type == t,
            Err(f) => spec_basic_err(fields@) == Some(f),
        },
{
    let mut fs = fields;
    match take_field(&mut fs, "content") {
        Some(content) => Ok(CustomEvent { content, event_type: t }),
        None => Err(FieldFault::Missing(FieldId::Content)),
    }
}

/// Decodes a custom room record from an object's fields, with `t` as its
/// discriminator.
pub fn parse_custom_room(fields: Vec<(String, JsonValue)>, t: EventType) -> (r: Result<
    CustomRoomEvent,
    FieldFault,
>)
    ensures
        match r {
            Ok(rec) => spec_custom_room_err(fields@) is None && spec_custom_room_from(fields@, rec)
                && rec.event_type == t,
            Err(f) => spec_custom_room_err(fields@) == Some(f),
        },
{
    let event_id = match opt_string(&fields, "event_id", FieldId::EventId) {
        Ok(o) => o,
        Err(f) => return Err(f),
    };
    let room_id = match opt_string(&fields, "room_id", FieldId::RoomId) {
        Ok(o) => o,
        Err(f) => return Err(f),
    };
    let sender = match opt_string(&fields, "sender", FieldId::Sender) {
        Ok(o) => o,
        Err(f) => return Err(f),
    };
    let mut fs = fields;
    match take_field(&mut fs, "content") {
        Some(content) => Ok(CustomRoomEvent { content, event_type: t, event_id, room_id, sender }),
        None => Err(FieldFault::Missing(FieldId::Content)),
    }
}

/// Decodes a custom state record from an object's fields, with `t` as its
/// discriminator.
pub fn parse_custom_state(fields: Vec<(String, JsonValue)>, t: EventType) -> (r: Result<
    CustomStateEvent,
    FieldFault,
>)
    ensures
        match r {
            Ok(rec) => spec_custom_state_err(fields@) is None && spec_custom_state_from(
                fields@,
                rec,
            ) && rec.event_type == t,
            Err(f) => spec_custom_state_err(fields@) == Some(f),
        },
{
    let event_id = match opt_string(&fields, "event_id", FieldId::EventId) {
        Ok(o) => o,
        Err(f) => return Err(f),
    };
    let room_id = match opt_string(&fields, "room_id", FieldId::RoomId) {
        Ok(o) => o,
        Err(f) => return Err(f),
    };
    let sender = match opt_string(&fields, "sender", FieldId::Sender) {
        Ok(o) => o,
        Err(f) => return Err(f),
    };
    let state_key = match req_string(&fields, "state_key", FieldId::StateKey) {
        Ok(s) => s,
        Err(f) => return Err(f),
    };
    let mut fs = fields;
    match take_field(&mut fs, "content") {
        Some(content) => Ok(
            CustomStateEvent { content, event_type: t, event_id, room_id, sender, state_key },
        ),
        None => Err(FieldFault::Missing(FieldId::Content)),
    }
}

/// Appends one binding to an object under construction. Lookups of already
/// bound keys are unchanged; the new key becomes bound to `value`.
pub(crate) fn push_binding(fields: &mut Vec<(String, JsonValue)>, key: &str, value: JsonValue)
    ensures
        forall|q: Seq<char>| #[trigger] spec_lookup(final(fields)@, q) == (if spec_lookup(
            old(fields)@,
            q,
        ) is Some {
            spec_lookup(old(fields)@, q)
        } else if q == key@ {
            Some(value)
        } else {
            None::<JsonValue>
        }),
{
    let k = key.to_owned();
    fields.push((k, value));
    proof {
        let kv = fields@.last();
        assert(fields@ == old(fields)@.push(kv));
        assert forall|q: Seq<char>| #[trigger] spec_lookup(fields@, q) == (if spec_lookup(
            old(fields)@,
            q,
        ) is Some {
            spec_lookup(old(fields)@, q)
        } else if q == key@ {
            Some(kv.1)
        } else {
            None::<JsonValue>
        }) by {
            lemma_lookup_push(old(fields)@, kv, q);
        }
    }
}

/// The `"type"` binding carries discriminator `t`'s tag string.
pub open spec fn spec_type_tagged(fields: Seq<(String, JsonValue)>, t: EventType) -> bool {
    spec_lookup(fields, "type"@) matches Some(JsonValue::Str(s)) && spec_tag(t, s@)
}

/// An optional string field encoded: present exactly when `o` is.
pub open spec fn spec_opt_string_encoded(
    fields: Seq<(String, JsonValue)>,
    key: Seq<char>,
    o: Option<String>,
) -> bool {
    match o {
        None => spec_lookup(fields, key) is None,
        Some(s) => spec_lookup(fields, key) == Some(JsonValue::Str(s)),
    }
}

/// An encoded basic-shape object: the content and the tag, and none of the
/// room metadata fields.
pub open spec fn spec_basic_obj_encoding(content: JsonValue, t: EventType, v: JsonValue) -> bool {
    match v {
        JsonValue::Obj(fields) => {
            &&& spec_lookup(fields@, "content"@) == Some(content)
            &&& spec_type_tagged(fields@, t)
            &&& spec_lookup(fields@, "event_id"@) is None
            &&& spec_lookup(fields@, "room_id"@) is None
            &&& spec_lookup(fields@, "sender"@) is None
            &&& spec_lookup(fields@, "state_key"@) is None
        },
        _ => false,
    }
}

/// An encoded basic record.
pub open spec fn spec_basic_encoding(rec: BasicEvent, v: JsonValue) -> bool {
    spec_basic_obj_encoding(rec.content, rec.event_type, v)
}

/// An encoded record's `"type"` binding carries a `Custom` discriminator's
/// raw string verbatim.
pub open spec fn spec_custom_tag_verbatim(
    fields: Seq<(String, JsonValue)>,
    t: EventType,
) -> bool {
    t matches EventType::Custom(raw) ==> spec_lookup(fields, "type"@) == Some(JsonValue::Str(raw))
}

/// An encoded custom basic record.
pub open spec fn spec_custom_basic_encoding(rec: CustomEvent, v: JsonValue) -> bool {
    &&& spec_basic_obj_encoding(rec.content, rec.event_type, v)
    &&& spec_custom_tag_verbatim(spec_obj_fields(v), rec.event_type)
}

/// An encoded room-scoped record: content, tag, and the room metadata; no
/// `state_key`.
pub open spec fn spec_room_encoding(rec: RoomScopedEvent, v: JsonValue) -> bool {
    match v {
        JsonValue::Obj(fields) => {
            &&& spec_lookup(fields@, "content"@) == Some(rec.content)
            &&& spec_type_tagged(fields@, rec.event_type)
            &&& spec_lookup(fields@, "event_id"@) == Some(JsonValue::Str(rec.event_id))
            &&& spec_lookup(fields@, "room_id"@) == Some(JsonValue::Str(rec.room_id))
            &&& spec_lookup(fields@, "sender"@) == Some(JsonValue::Str(rec.sender))
            &&& spec_lookup(fields@, "state_key"@) is None
        },
        _ => false,
    }
}

/// An encoded state record: the room-scoped fields plus `state_key`.
pub open spec fn spec_state_encoding(rec: StateScopedEvent, v: JsonValue) -> bool {
    match v {
        JsonValue::Obj(fields) => {
            &&& spec_lookup(fields@, "content"@) == Some(rec.content)
            &&& spec_type_tagged(fields@, rec.event_type)
            &&& spec_lookup(fields@, "event_id"@) == Some(JsonValue::Str(rec.event_id))
            &&& spec_lookup(fields@, "room_id"@) == Some(JsonValue::Str(rec.room_id))
            &&& spec_lookup(fields@, "sender"@) == Some(JsonValue::Str(rec.sender))
            &&& spec_lookup(fields@, "state_key"@) == Some(JsonValue::Str(rec.state_key))
        },
        _ => false,
    }
}

/// An encoded custom room record: optional metadata appears exactly when
/// set; no `state_key`.
pub open spec fn spec_custom_room_encoding(rec: CustomRoomEvent, v: JsonValue) -> bool {
    match v {
        JsonValue::Obj(fields) => {
            &&& spec_lookup(fields@, "content"@) == Some(rec.content)
            &&& spec_type_tagged(fields@, rec.event_type)
            &&& spec_opt_string_encoded(fields@, "event_id"@, rec.event_id)
            &&& spec_opt_string_encoded(fields@, "room_id"@, rec.room_id)
            &&& spec_opt_string_encoded(fields@, "sender"@, rec.sender)
            &&& spec_lookup(fields@, "state_key"@) is None
            &&& spec_custom_tag_verbatim(fields@, rec.event_type)
        },
        _ => false,
    }
}

/// An encoded custom state record: optional metadata plus `state_key`.
pub open spec fn spec_custom_state_encoding(rec: CustomStateEvent, v: JsonValue) -> bool {
    match v {
        JsonValue::Obj(fields) => {
            &&& spec_lookup(fields@, "content"@) == Some(rec.content)
            &&& spec_type_tagged(fields@, rec.event_type)
            &&& spec_opt_string_encoded(fields@, "event_id"@, rec.event_id)
            &&& spec_opt_string_encoded(fields@, "room_id"@, rec.room_id)
            &&& spec_opt_string_encoded(fields@, "sender"@, rec.sender)
            &&& spec_lookup(fields@, "state_key"@) == Some(JsonValue::Str(rec.state_key))
            &&& spec_custom_tag_verbatim(fields@, rec.event_type)
        },
        _ => false,
    }
}

impl BasicEvent {
    /// Encodes the record as one object; the discriminator re-emits its own
    /// tag as the `"type"` field.
    pub fn serialize(self) -> (r: JsonValue)
        ensures
            spec_basic_encoding(self, r),
    {
        let tag = self.event_type.tag_string();
        let mut fields: Vec<(String, JsonValue)> = Vec::new();
        push_binding(&mut fields, "content", self.content);
        push_binding(&mut fields, "type", JsonValue::Str(tag));
        proof {
            lemma_field_names_distinct();
        }
        JsonValue::Obj(fields)
    }
}

impl CustomEvent {
    /// Encodes the record as one object; the discriminator re-emits its own
    /// tag as the `"type"` field.
    pub fn serialize(self) -> (r: JsonValue)
        ensures
            spec_custom_basic_encoding(self, r),
    {
        let tag = self.event_type.tag_string();
        let mut fields: Vec<(String, JsonValue)> = Vec::new();
        push_binding(&mut fields, "content", self.content);
        push_binding(&mut fields, "type", JsonValue::Str(tag));
        proof {
            lemma_field_names_distinct();
        }
        JsonValue::Obj(fields)
    }
}

impl RoomScopedEvent {
    /// Encodes the record as one object; the discriminator re-emits its own
    /// tag as the `"type"` field.
    pub fn serialize(self) -> (r: JsonValue)
        ensures
            spec_room_encoding(self, r),
    {
        let tag = self.event_type.tag_string();
        let mut fields: Vec<(String, JsonValue)> = Vec::new();
        push_binding(&mut fields, "content", self.content);
        push_binding(&mut fields, "type", JsonValue::Str(tag));
        push_binding(&mut fields, "event_id", JsonValue::Str(self.event_id));
        push_binding(&mut fields, "room_id", JsonValue::Str(self.room_id));
        push_binding(&mut fields, "sender", JsonValue::Str(self.sender));
        proof {
            lemma_field_names_distinct();
        }
        JsonValue::Obj(fields)
    }
}

impl StateScopedEvent {
    /// Encodes the record as one object; the discriminator re-emits its own
    /// tag as the `"type"` field.
    pub fn serialize(self) -> (r: JsonValue)
        ensures
            spec_state_encoding(self, r),
    {
        let tag = self.event_type.tag_string();
        let mut fields: Vec<(String, JsonValue)> = Vec::new();
        push_binding(&mut fields, "content", self.content);
        push_binding(&mut fields, "type", JsonValue::Str(tag));
        push_binding(&mut fields, "event_id", JsonValue::Str(self.event_id));
        push_binding(&mut fields, "room_id", JsonValue::Str(self.room_id));
        push_binding(&mut fields, "sender", JsonValue::Str(self.sender));
        push_binding(&mut fields, "state_key", JsonValue::Str(self.state_key));
        proof {
            lemma_field_names_distinct();
        }
        JsonValue::Obj(fields)
    }
}

impl CustomRoomEvent {
    /// Encodes the record as one object; optional metadata is emitted only
    /// when set.
    pub fn serialize(self) -> (r: JsonValue)
        ensures
            spec_custom_room_encoding(self, r),
    {
        let tag = self.event_type.tag_string();
        let mut fields: Vec<(String, JsonValue)> = Vec::new();
        push_binding(&mut fields, "content", self.content);
        push_binding(&mut fields, "type", JsonValue::Str(tag));
        match self.event_id {
            Some(id) => push_binding(&mut fields, "event_id", JsonValue::Str(id)),
            None => (),
        }
        match self.room_id {
            Some(id) => push_binding(&mut fields, "room_id", JsonValue::Str(id)),
            None => (),
        }
        match self.sender {
            Some(id) => push_binding(&mut fields, "sender", JsonValue::Str(id)),
            None => (),
        }
        proof {
            lemma_field_names_distinct();
        }
        JsonValue::Obj(fields)
    }
}

impl CustomStateEvent {
    /// Encodes the record as one object; optional metadata is emitted only
    /// when set, the `state_key` always.
    pub fn serialize(self) -> (r: JsonValue)
        ensures
            spec_custom_state_encoding(self, r),
    {
        let tag = self.event_type.tag_string();
        let mut fields: Vec<(String, JsonValue)> = Vec::new();
        push_binding(&mut fields, "content", self.content);
        push_binding(&mut fields, "type", JsonValue::Str(tag));
        match self.event_id {
            Some(id) => push_binding(&mut fields, "event_id", JsonValue::Str(id)),
            None => (),
        }
        match self.room_id {
            Some(id) => push_binding(&mut fields, "room_id", JsonValue::Str(id)),
            None => (),
        }
        match self.sender {
            Some(id) => push_binding(&mut fields, "sender", JsonValue::Str(id)),
            None => (),
        }
        push_binding(&mut fields, "state_key", JsonValue::Str(self.state_key));
        proof {
            lemma_field_names_distinct();
        }
        JsonValue::Obj(fields)
    }
}

} // verus!
