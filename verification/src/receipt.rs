//! Types for the receipt event.
//!
//! The receipt event is the one catalog member whose content is decoded in a
//! typed form here: a mapping of event ID to the collection of read receipts
//! for that event, each receipt a mapping of user ID to a timestamp.

use vstd::prelude::*;

use crate::event_type::EventType;
use crate::json::JsonValue;
use crate::json::get_field;
use crate::json::take_field;
use crate::json::spec_lookup;
use crate::json::lemma_field_names_distinct;
use crate::records::FieldFault;
use crate::records::FieldId;
use crate::records::first_fault;
use crate::records::push_binding;
use crate::records::req_string;
use crate::records::spec_req_string_from;
use crate::records::spec_string_field_err;
use crate::records::spec_type_tagged;

verus! {

/// An acknowledgement of an event.
#[derive(Clone, Copy, Debug, PartialEq, Eq)]
pub struct Receipt {
    /// The timestamp the receipt was sent at.
    pub ts: u64,
}

/// A collection of receipts: the users who have sent read receipts for one
/// event, each user paired with one receipt.
#[derive(Debug, PartialEq)]
pub struct Receipts {
    pub m_read: Vec<(String, Receipt)>,
}

/// The payload of a `ReceiptEvent`: a mapping of event ID to the receipts
/// for that event ID. The event ID names the event being acknowledged, not
/// the receipt itself.
pub type ReceiptEventContent = Vec<(String, Receipts)>;

/// A mapping of user ID to receipt; the user ID names the sender.
pub type UserReceipts = Vec<(String, Receipt)>;

/// Informs the client of new receipts.
#[derive(Debug, PartialEq)]
pub struct ReceiptEvent {
    pub content: ReceiptEventContent,
    pub event_type: EventType,
    pub room_id: String,
}

/// One receipt decoded from `v`: an object whose `"ts"` field is an integer.
pub open spec fn spec_receipt_from(v: JsonValue, r: Receipt) -> bool {
    match v {
        JsonValue::Obj(fs) => spec_lookup(fs@, "ts"@) == Some(JsonValue::Num(r.ts)),
        _ => false,
    }
}

/// `v` has the shape of one receipt.
pub open spec fn spec_receipt_ok(v: JsonValue) -> bool {
    match v {
        JsonValue::Obj(fs) => spec_lookup(fs@, "ts"@) matches Some(JsonValue::Num(_)),
        _ => false,
    }
}

/// A receipts collection decoded from `v`: an object whose `"m_read"` field
/// is an object of user/receipt bindings, carried over in order.
pub open spec fn spec_receipts_from(v: JsonValue, r: Receipts) -> bool {
    match v {
        JsonValue::Obj(fs) => match spec_lookup(fs@, "m_read"@) {
            Some(JsonValue::Obj(users)) => {
                &&& r.m_read@.len() == users@.len()
                &&& forall|i: int|
                    #![all_triggers]
                    0 <= i < users@.len() ==> r.m_read@[i].0 == (users@[i]).0
                        && spec_receipt_from(users@[i].1, r.m_read@[i].1)
            },
            _ => false,
        },
        _ => false,
    }
}

/// `v` has the shape of a receipts collection.
pub open spec fn spec_receipts_ok(v: JsonValue) -> bool {
    match v {
        JsonValue::Obj(fs) => match spec_lookup(fs@, "m_read"@) {
            Some(JsonValue::Obj(users)) => forall|i: int|
                #![all_triggers]
                0 <= i < users@.len() ==> spec_receipt_ok((users@[i]).1),
            _ => false,
        },
        _ => false,
    }
}

/// The typed receipt content decoded from `v`: every binding of the object
/// carried over in order.
pub open spec fn spec_receipt_content_from(v: JsonValue, m: Seq<(String, Receipts)>) -> bool {
    match v {
        JsonValue::Obj(entries) => {
            &&& m.len() == entries@.len()
            &&& forall|i: int|
                #![all_triggers]
                0 <= i < entries@.len() ==> m[i].0 == (entries@[i]).0
                    && spec_receipts_from(entries@[i].1, m[i].1)
        },
        _ => false,
    }
}

/// `v` has the shape of receipt content.
pub open spec fn spec_receipt_content_ok(v: JsonValue) -> bool {
    match v {
        JsonValue::Obj(entries) => forall|i: int|
            #![all_triggers]
            0 <= i < entries@.len() ==> spec_receipts_ok((entries@[i]).1),
        _ => false,
    }
}

/// The decode fault of the receipt record, if any: `room_id` must be a
/// string, `content` must be present and shaped as receipt content.
pub open spec fn spec_receipt_leaf_err(fields: Seq<(String, JsonValue)>) -> Option<FieldFault> {
    first_fault(
        spec_string_field_err(fields, "room_id"@, FieldId::RoomId),
        match spec_lookup(fields, "content"@) {
            None => Some(FieldFault::Missing(FieldId::Content)),
            Some(c) => if spec_receipt_content_ok(c) {
                None
            } else {
                Some(FieldFault::Invalid(FieldId::Content))
            },
        },
    )
}

/// A receipt event decoded from an object's fields.
pub open spec fn spec_receipt_event_from(
    fields: Seq<(String, JsonValue)>,
    rec: ReceiptEvent,
) -> bool {
    &&& spec_req_string_from(fields, "room_id"@, rec.room_id)
    &&& spec_lookup(fields, "content"@) matches Some(c) && spec_receipt_content_from(
        c,
        rec.content@,
    )
    &&& rec.event_type == EventType::Receipt
}

/// Decodes one receipt.
fn parse_receipt(v: JsonValue) -> (r: Result<Receipt, FieldFault>)
    ensures
        match r {
            Ok(rec) => spec_receipt_ok(v) && spec_receipt_from(v, rec),
            Err(f) => f == FieldFault::Invalid(FieldId::Content) && !spec_receipt_ok(v),
        },
{
    match v {
        JsonValue::Obj(fs) => match get_field(&fs, "ts") {
            Some(JsonValue::Num(n)) => Ok(Receipt { ts: *n }),
            _ => Err(FieldFault::Invalid(FieldId::Content)),
        },
        _ => Err(FieldFault::Invalid(FieldId::Content)),
    }
}

/// Decodes a receipts collection.
#[verifier::loop_isolation(false)]
fn parse_receipts(v: JsonValue) -> (r: Result<Receipts, FieldFault>)
    ensures
        match r {
            Ok(rec) => spec_receipts_ok(v) && spec_receipts_from(v, rec),
            Err(f) => f == FieldFault::Invalid(FieldId::Content) && !spec_receipts_ok(v),
        },
{
    let mut fs = match v {
        JsonValue::Obj(fs) => fs,
        _ => {
            return Err(FieldFault::Invalid(FieldId::Content));
        },
    };
    let users = match take_field(&mut fs, "m_read") {
        Some(JsonValue::Obj(users)) => users,
        _ => {
            return Err(FieldFault::Invalid(FieldId::Content));
        },
    };
    let ghost gusers = users@;
    let mut m_read: Vec<(String, Receipt)> = Vec::new();
    let mut rest = users;
    while rest.len() > 0
        invariant
            m_read@.len() + rest@.len() == gusers.len(),
            rest@ == gusers.skip(m_read@.len() as int),
            forall|i: int|
                #![all_triggers]
                0 <= i < m_read@.len() ==> m_read@[i].0 == (gusers[i]).0
                    && spec_receipt_from(gusers[i].1, m_read@[i].1) && spec_receipt_ok(
                    gusers[i].1,
                ),
        decreases rest@.len(),
    {
        let ghost k = m_read@.len() as int;
        proof {
            assert(rest@[0] == gusers[k]);
        }
        let (user, uv) = rest.remove(0);
        proof {
            assert(rest@ =~= gusers.skip(k + 1));
        }
        match parse_receipt(uv) {
            Ok(rcpt) => m_read.push((user, rcpt)),
            Err(f) => {
                proof {
                    assert(!spec_receipt_ok(gusers[k].1));
                }
                return Err(f);
            },
        }
    }
    Ok(Receipts { m_read })
}

/// Decodes the typed receipt content.
#[verifier::loop_isolation(false)]
fn parse_receipt_content(v: JsonValue) -> (r: Result<ReceiptEventContent, FieldFault>)
    ensures
        match r {
            Ok(m) => spec_receipt_content_ok(v) && spec_receipt_content_from(v, m@),
            Err(f) => f == FieldFault::Invalid(FieldId::Content) && !spec_receipt_content_ok(v),
        },
{
    let entries = match v {
        JsonValue::Obj(entries) => entries,
        _ => {
            return Err(FieldFault::Invalid(FieldId::Content));
        },
    };
    let ghost gentries = entries@;
    let mut m: Vec<(String, Receipts)> = Vec::new();
    let mut rest = entries;
    while rest.len() > 0
        invariant
            m@.len() + rest@.len() == gentries.len(),
            rest@ == gentries.skip(m@.len() as int),
            forall|i: int|
                #![all_triggers]
                0 <= i < m@.len() ==> m@[i].0 == (gentries[i]).0 && spec_receipts_from(
                    gentries[i].1,
                    m@[i].1,
                ) && spec_receipts_ok(gentries[i].1),
        decreases rest@.len(),
    {
        let ghost k = m@.len() as int;
        proof {
            assert(rest@[0] == gentries[k]);
        }
        let (event_id, rv) = rest.remove(0);
        proof {
            assert(rest@ =~= gentries.skip(k + 1));
        }
        match parse_receipts(rv) {
            Ok(rcpts) => m.push((event_id, rcpts)),
            Err(f) => {
                proof {
                    assert(!spec_receipts_ok(gentries[k].1));
                }
                return Err(f);
            },
        }
    }
    Ok(m)
}

/// Decodes a receipt event from an object's fields.
pub fn parse_receipt_event(fields: Vec<(String, JsonValue)>) -> (r: Result<
    ReceiptEvent,
    FieldFault,
>)
    ensures
        match r {
            Ok(rec) => spec_receipt_leaf_err(fields@) is None && spec_receipt_event_from(
                fields@,
                rec,
            ),
            Err(f) => spec_receipt_leaf_err(fields@) == Some(f),
        },
{
    let room_id = match req_string(&fields, "room_id", FieldId::RoomId) {
        Ok(s) => s,
        Err(f) => return Err(f),
    };
    let mut fs = fields;
    let content_v = match take_field(&mut fs, "content") {
        Some(c) => c,
        None => {
            return Err(FieldFault::Missing(FieldId::Content));
        },
    };
    let content = match parse_receipt_content(content_v) {
        Ok(m) => m,
        Err(f) => return Err(f),
    };
    Ok(ReceiptEvent { content, event_type: EventType::Receipt, room_id })
}

impl Receipt {
    /// Encodes the receipt as an object with its `"ts"` field.
    pub fn serialize(self) -> (r: JsonValue)
        ensures
            spec_receipt_from(r, self),
            spec_receipt_ok(r),
    {
        let mut fields: Vec<(String, JsonValue)> = Vec::new();
        push_binding(&mut fields, "ts", JsonValue::Num(self.ts));
        JsonValue::Obj(fields)
    }
}

impl Receipts {
    /// Encodes the collection as an object with its `"m_read"` field.
    pub fn serialize(self) -> (r: JsonValue)
        ensures
            spec_receipts_from(r, self),
            spec_receipts_ok(r),
    {
        let ghost g = self.m_read@;
        let mut users: Vec<(String, JsonValue)> = Vec::new();
        let mut rest = self.m_read;
        while rest.len() > 0
            invariant
                users@.len() + rest@.len() == g.len(),
                rest@ == g.skip(users@.len() as int),
                forall|i: int|
                    #![all_triggers]
                    0 <= i < users@.len() ==> users@[i].0 == (g[i]).0
                        && spec_receipt_from(users@[i].1, g[i].1) && spec_receipt_ok(users@[i].1),
            decreases rest@.len(),
        {
            let ghost k = users@.len() as int;
            proof {
                assert(rest@[0] == g[k]);
            }
            let (user, rcpt) = rest.remove(0);
            proof {
                assert(rest@ =~= g.skip(k + 1));
            }
            users.push((user, rcpt.serialize()));
        }
        let mut fields: Vec<(String, JsonValue)> = Vec::new();
        push_binding(&mut fields, "m_read", JsonValue::Obj(users));
        JsonValue::Obj(fields)
    }
}

/// Encodes the typed receipt content as one object.
fn serialize_receipt_content(m: ReceiptEventContent) -> (r: JsonValue)
    ensures
        spec_receipt_content_from(r, m@),
        spec_receipt_content_ok(r),
{
    let ghost g = m@;
    let mut entries: Vec<(String, JsonValue)> = Vec::new();
    let mut rest = m;
    while rest.len() > 0
        invariant
            entries@.len() + rest@.len() == g.len(),
            rest@ == g.skip(entries@.len() as int),
            forall|i: int|
                #![all_triggers]
                0 <= i < entries@.len() ==> entries@[i].0 == (g[i]).0
                    && spec_receipts_from(entries@[i].1, g[i].1) && spec_receipts_ok(
                    entries@[i].1,
                ),
        decreases rest@.len(),
    {
        let ghost k = entries@.len() as int;
        proof {
            assert(rest@[0] == g[k]);
        }
        let (event_id, rcpts) = rest.remove(0);
        proof {
            assert(rest@ =~= g.skip(k + 1));
        }
        entries.push((event_id, rcpts.serialize()));
    }
    JsonValue::Obj(entries)
}

/// An encoded receipt event: typed content re-encoded, the discriminator's
/// tag, and the room.
pub open spec fn spec_receipt_event_encoding(rec: ReceiptEvent, v: JsonValue) -> bool {
    match v {
        JsonValue::Obj(fields) => {
            &&& spec_lookup(fields@, "content"@) matches Some(c) && spec_receipt_content_from(
                c,
                rec.content@,
            ) && spec_receipt_content_ok(c)
            &&& spec_type_tagged(fields@, rec.event_type)
            &&& spec_lookup(fields@, "room_id"@) == Some(JsonValue::Str(rec.room_id))
        },
        _ => false,
    }
}

impl ReceiptEvent {
    /// Encodes the record as one object; the discriminator re-emits its own
    /// tag as the `"type"` field.
    pub fn serialize(self) -> (r: JsonValue)
        ensures
            spec_receipt_event_encoding(self, r),
    {
        let tag = self.event_type.tag_string();
        let content = serialize_receipt_content(self.content);
        let mut fields: Vec<(String, JsonValue)> = Vec::new();
        push_binding(&mut fields, "content", content);
        push_binding(&mut fields, "type", JsonValue::Str(tag));
        push_binding(&mut fields, "room_id", JsonValue::Str(self.room_id));
        proof {
            lemma_field_names_distinct();
        }
        JsonValue::Obj(fields)
    }
}

} // verus!
