//! Enums for heterogeneous collections of events, and their decode and
//! encode algorithms.
//!
//! Three containers aggregate the catalog, each with its own legality table
//! over known discriminators and its own fallbacks for unrecognized ones:
//!
//! - `Event`: every catalog member, with basic, room, and state fallbacks.
//! - `RoomEvent`: the room-scoped and state members, with room and state
//!   fallbacks; basic discriminators are illegal here.
//! - `StateEvent`: the state members, with the state fallback only; every
//!   unrecognized discriminator is classified as state, unconditionally.
//!
//! Decoding resolves the `"type"` field first, then re-parses the whole
//! input as the selected member's record. Encoding never branches on the
//! discriminator: it delegates to the contained record, whose own encoding
//! re-emits the tag.

use vstd::prelude::*;

use crate::event_type::EventType;
use crate::event_type::Shape;
use crate::event_type::parse_event_type;
use crate::event_type::spec_parse_known;
use crate::event_type::spec_parse_type;
use crate::event_type::spec_room_allowed;
use crate::event_type::spec_shape_of;
use crate::event_type::spec_state_allowed;
use crate::json::JsonValue;
use crate::json::find_field;
use crate::json::get_field;
use crate::json::spec_get;
use crate::json::spec_obj_fields;
use crate::receipt::ReceiptEvent;
use crate::receipt::parse_receipt_event;
use crate::receipt::spec_receipt_event_encoding;
use crate::receipt::spec_receipt_event_from;
use crate::receipt::spec_receipt_leaf_err;
use crate::records::BasicEvent;
use crate::records::CustomEvent;
use crate::records::CustomRoomEvent;
use crate::records::CustomStateEvent;
use crate::records::DecodeError;
use crate::records::FieldFault;
use crate::records::RoomScopedEvent;
use crate::records::StateScopedEvent;
use crate::records::parse_basic;
use crate::records::parse_custom_basic;
use crate::records::parse_custom_room;
use crate::records::parse_custom_state;
use crate::records::parse_room_scoped;
use crate::records::parse_state_scoped;
use crate::records::spec_basic_encoding;
use crate::records::spec_basic_err;
use crate::records::spec_basic_from;
use crate::records::spec_custom_basic_encoding;
use crate::records::spec_custom_basic_from;
use crate::records::spec_custom_room_encoding;
use crate::records::spec_custom_room_err;
use crate::records::spec_custom_room_from;
use crate::records::spec_custom_state_encoding;
use crate::records::spec_custom_state_err;
use crate::records::spec_custom_state_from;
use crate::records::spec_room_encoding;
use crate::records::spec_room_err;
use crate::records::spec_room_from;
use crate::records::spec_state_encoding;
use crate::records::spec_state_err;
use crate::records::spec_state_from;

verus! {

/// The member of a container that an input selects: one known catalog
/// member, or one of the custom fallbacks.
#[derive(Debug, PartialEq)]
pub enum Member {
    Known(EventType),
    CustomBasic,
    CustomRoom,
    CustomState,
}

/// A basic event, room event, or state event.
#[derive(Debug, PartialEq)]
pub enum Event {
    /// m.call.answer
    CallAnswer(RoomScopedEvent),
    /// m.call.candidates
    CallCandidates(RoomScopedEvent),
    /// m.call.hangup
    CallHangup(RoomScopedEvent),
    /// m.call.invite
    CallInvite(RoomScopedEvent),
    /// m.presence
    Presence(BasicEvent),
    /// m.receipt
    Receipt(ReceiptEvent),
    /// m.room.aliases
    RoomAliases(StateScopedEvent),
    /// m.room.avatar
    RoomAvatar(StateScopedEvent),
    /// m.room.canonical_alias
    RoomCanonicalAlias(StateScopedEvent),
    /// m.room.create
    RoomCreate(StateScopedEvent),
    /// m.room.guest_access
    RoomGuestAccess(StateScopedEvent),
    /// m.room.history_visibility
    RoomHistoryVisibility(StateScopedEvent),
    /// m.room.join_rules
    RoomJoinRules(StateScopedEvent),
    /// m.room.member
    RoomMember(StateScopedEvent),
    /// m.room.message
    RoomMessage(RoomScopedEvent),
    /// m.room.name
    RoomName(StateScopedEvent),
    /// m.room.power_levels
    RoomPowerLevels(StateScopedEvent),
    /// m.room.redaction
    RoomRedaction(RoomScopedEvent),
    /// m.room.third_party_invite
    RoomThirdPartyInvite(StateScopedEvent),
    /// m.room.topic
    RoomTopic(StateScopedEvent),
    /// m.tag
    Tag(BasicEvent),
    /// m.typing
    Typing(BasicEvent),
    /// Any basic event that is not part of the catalog.
    Custom(CustomEvent),
    /// Any room event that is not part of the catalog.
    CustomRoom(CustomRoomEvent),
    /// Any state event that is not part of the catalog.
    CustomState(CustomStateEvent),
}

/// A room event or state event.
#[derive(Debug, PartialEq)]
pub enum RoomEvent {
    /// m.call.answer
    CallAnswer(RoomScopedEvent),
    /// m.call.candidates
    CallCandidates(RoomScopedEvent),
    /// m.call.hangup
    CallHangup(RoomScopedEvent),
    /// m.call.invite
    CallInvite(RoomScopedEvent),
    /// m.room.aliases
    RoomAliases(StateScopedEvent),
    /// m.room.avatar
    RoomAvatar(StateScopedEvent),
    /// m.room.canonical_alias
    RoomCanonicalAlias(StateScopedEvent),
    /// m.room.create
    RoomCreate(StateScopedEvent),
    /// m.room.guest_access
    RoomGuestAccess(StateScopedEvent),
    /// m.room.history_visibility
    RoomHistoryVisibility(StateScopedEvent),
    /// m.room.join_rules
    RoomJoinRules(StateScopedEvent),
    /// m.room.member
    RoomMember(StateScopedEvent),
    /// m.room.message
    RoomMessage(RoomScopedEvent),
    /// m.room.name
    RoomName(StateScopedEvent),
    /// m.room.power_levels
    RoomPowerLevels(StateScopedEvent),
    /// m.room.redaction
    RoomRedaction(RoomScopedEvent),
    /// m.room.third_party_invite
    RoomThirdPartyInvite(StateScopedEvent),
    /// m.room.topic
    RoomTopic(StateScopedEvent),
    /// Any room event that is not part of the catalog.
    CustomRoom(CustomRoomEvent),
    /// Any state event that is not part of the catalog.
    CustomState(CustomStateEvent),
}

/// A state event.
#[derive(Debug, PartialEq)]
pub enum StateEvent {
    /// m.room.aliases
    RoomAliases(StateScopedEvent),
    /// m.room.avatar
    RoomAvatar(StateScopedEvent),
    /// m.room.canonical_alias
    RoomCanonicalAlias(StateScopedEvent),
    /// m.room.create
    RoomCreate(StateScopedEvent),
    /// m.room.guest_access
    RoomGuestAccess(StateScopedEvent),
    /// m.room.history_visibility
    RoomHistoryVisibility(StateScopedEvent),
    /// m.room.join_rules
    RoomJoinRules(StateScopedEvent),
    /// m.room.member
    RoomMember(StateScopedEvent),
    /// m.room.name
    RoomName(StateScopedEvent),
    /// m.room.power_levels
    RoomPowerLevels(StateScopedEvent),
    /// m.room.third_party_invite
    RoomThirdPartyInvite(StateScopedEvent),
    /// m.room.topic
    RoomTopic(StateScopedEvent),
    /// Any state event that is not part of the catalog.
    CustomState(CustomStateEvent),
}

/// Classification of an unrecognized discriminator under `Event` decode:
/// a present `state_key` wins; else all of `event_id`, `room_id`, `sender`
/// present selects the room fallback; else the basic fallback.
pub open spec fn spec_classify_event(v: JsonValue) -> Member {
    if spec_get(v, "state_key"@) is Some {
        Member::CustomState
    } else if spec_get(v, "event_id"@) is Some && spec_get(v, "room_id"@) is Some && spec_get(
        v,
        "sender"@,
    ) is Some {
        Member::CustomRoom
    } else {
        Member::CustomBasic
    }
}

/// Classification of an unrecognized discriminator under `RoomEvent`
/// decode: there is no basic fallback, so anything without a `state_key`
/// is the room fallback.
pub open spec fn spec_classify_room_event(v: JsonValue) -> Member {
    if spec_get(v, "state_key"@) is Some {
        Member::CustomState
    } else {
        Member::CustomRoom
    }
}

/// The member that `Event` decode selects, or the discriminator-resolution
/// error. Every discriminator is legal here.
pub open spec fn spec_event_target(v: JsonValue) -> Result<Member, DecodeError> {
    match spec_get(v, "type"@) {
        None => Err(DecodeError::MissingDiscriminator),
        Some(tv) => match tv {
            JsonValue::Str(s) => match spec_parse_known(s@) {
                Some(t) => Ok(Member::Known(t)),
                None => Ok(spec_classify_event(v)),
            },
            _ => Err(DecodeError::MalformedDiscriminator),
        },
    }
}

/// The member that `RoomEvent` decode selects: basic discriminators are
/// illegal; unrecognized ones classify without a basic fallback.
pub open spec fn spec_room_event_target(v: JsonValue) -> Result<Member, DecodeError> {
    match spec_get(v, "type"@) {
        None => Err(DecodeError::MissingDiscriminator),
        Some(tv) => match tv {
            JsonValue::Str(s) => match spec_parse_known(s@) {
                Some(t) => if spec_room_allowed(t) {
                    Ok(Member::Known(t))
                } else {
                    Err(DecodeError::IllegalMemberForContainer)
                },
                None => Ok(spec_classify_room_event(v)),
            },
            _ => Err(DecodeError::MalformedDiscriminator),
        },
    }
}

/// The member that `StateEvent` decode selects: only state discriminators
/// are legal; every unrecognized one is the state fallback, with no field
/// presence check.
pub open spec fn spec_state_event_target(v: JsonValue) -> Result<Member, DecodeError> {
    match spec_get(v, "type"@) {
        None => Err(DecodeError::MissingDiscriminator),
        Some(tv) => match tv {
            JsonValue::Str(s) => match spec_parse_known(s@) {
                Some(t) => if spec_state_allowed(t) {
                    Ok(Member::Known(t))
                } else {
                    Err(DecodeError::IllegalMemberForContainer)
                },
                None => Ok(Member::CustomState),
            },
            _ => Err(DecodeError::MalformedDiscriminator),
        },
    }
}

/// The structural-decode fault of a known member's record, if any.
pub open spec fn spec_known_leaf_err(
    fields: Seq<(String, JsonValue)>,
    t: EventType,
) -> Option<FieldFault> {
    match spec_shape_of(t) {
        Shape::Basic => spec_basic_err(fields),
        Shape::RoomScoped => spec_room_err(fields),
        Shape::StateScoped => spec_state_err(fields),
        Shape::Receipt => spec_receipt_leaf_err(fields),
    }
}

/// The structural-decode fault of the record that member `m` holds, if any.
pub open spec fn spec_member_err(v: JsonValue, m: Member) -> Option<FieldFault> {
    let fields = spec_obj_fields(v);
    match m {
        Member::Known(t) => spec_known_leaf_err(fields, t),
        Member::CustomBasic => spec_basic_err(fields),
        Member::CustomRoom => spec_custom_room_err(fields),
        Member::CustomState => spec_custom_state_err(fields),
    }
}

/// Why `Event` decode fails on `v`, or `None` when it succeeds.
pub open spec fn spec_event_decode_err(v: JsonValue) -> Option<DecodeError> {
    match spec_event_target(v) {
        Err(e) => Some(e),
        Ok(m) => match spec_member_err(v, m) {
            Some(f) => Some(DecodeError::LeafDecodeFailure(f)),
            None => None,
        },
    }
}

/// Why `RoomEvent` decode fails on `v`, or `None` when it succeeds.
pub open spec fn spec_room_event_decode_err(v: JsonValue) -> Option<DecodeError> {
    match spec_room_event_target(v) {
        Err(e) => Some(e),
        Ok(m) => match spec_member_err(v, m) {
            Some(f) => Some(DecodeError::LeafDecodeFailure(f)),
            None => None,
        },
    }
}

/// Why `StateEvent` decode fails on `v`, or `None` when it succeeds.
pub open spec fn spec_state_event_decode_err(v: JsonValue) -> Option<DecodeError> {
    match spec_state_event_target(v) {
        Err(e) => Some(e),
        Ok(m) => match spec_member_err(v, m) {
            Some(f) => Some(DecodeError::LeafDecodeFailure(f)),
            None => None,
        },
    }
}

/// The member that an `Event` value inhabits.
pub open spec fn spec_event_member_of(e: Event) -> Member {
    match e {
        Event::CallAnswer(_) => Member::Known(EventType::CallAnswer),
        Event::CallCandidates(_) => Member::Known(EventType::CallCandidates),
        Event::CallHangup(_) => Member::Known(EventType::CallHangup),
        Event::CallInvite(_) => Member::Known(EventType::CallInvite),
        Event::Presence(_) => Member::Known(EventType::Presence),
        Event::Receipt(_) => Member::Known(EventType::Receipt),
        Event::RoomAliases(_) => Member::Known(EventType::RoomAliases),
        Event::RoomAvatar(_) => Member::Known(EventType::RoomAvatar),
        Event::RoomCanonicalAlias(_) => Member::Known(EventType::RoomCanonicalAlias),
        Event::RoomCreate(_) => Member::Known(EventType::RoomCreate),
        Event::RoomGuestAccess(_) => Member::Known(EventType::RoomGuestAccess),
        Event::RoomHistoryVisibility(_) => Member::Known(EventType::RoomHistoryVisibility),
        Event::RoomJoinRules(_) => Member::Known(EventType::RoomJoinRules),
        Event::RoomMember(_) => Member::Known(EventType::RoomMember),
        Event::RoomMessage(_) => Member::Known(EventType::RoomMessage),
        Event::RoomName(_) => Member::Known(EventType::RoomName),
        Event::RoomPowerLevels(_) => Member::Known(EventType::RoomPowerLevels),
        Event::RoomRedaction(_) => Member::Known(EventType::RoomRedaction),
        Event::RoomThirdPartyInvite(_) => Member::Known(EventType::RoomThirdPartyInvite),
        Event::RoomTopic(_) => Member::Known(EventType::RoomTopic),
        Event::Tag(_) => Member::Known(EventType::Tag),
        Event::Typing(_) => Member::Known(EventType::Typing),
        Event::Custom(_) => Member::CustomBasic,
        Event::CustomRoom(_) => Member::CustomRoom,
        Event::CustomState(_) => Member::CustomState,
    }
}

/// The member that a `RoomEvent` value inhabits.
pub open spec fn spec_room_event_member_of(e: RoomEvent) -> Member {
    match e {
        RoomEvent::CallAnswer(_) => Member::Known(EventType::CallAnswer),
        RoomEvent::CallCandidates(_) => Member::Known(EventType::CallCandidates),
        RoomEvent::CallHangup(_) => Member::Known(EventType::CallHangup),
        RoomEvent::CallInvite(_) => Member::Known(EventType::CallInvite),
        RoomEvent::RoomAliases(_) => Member::Known(EventType::RoomAliases),
        RoomEvent::RoomAvatar(_) => Member::Known(EventType::RoomAvatar),
        RoomEvent::RoomCanonicalAlias(_) => Member::Known(EventType::RoomCanonicalAlias),
        RoomEvent::RoomCreate(_) => Member::Known(EventType::RoomCreate),
        RoomEvent::RoomGuestAccess(_) => Member::Known(EventType::RoomGuestAccess),
        RoomEvent::RoomHistoryVisibility(_) => Member::Known(EventType::RoomHistoryVisibility),
        RoomEvent::RoomJoinRules(_) => Member::Known(EventType::RoomJoinRules),
        RoomEvent::RoomMember(_) => Member::Known(EventType::RoomMember),
        RoomEvent::RoomMessage(_) => Member::Known(EventType::RoomMessage),
        RoomEvent::RoomName(_) => Member::Known(EventType::RoomName),
        RoomEvent::RoomPowerLevels(_) => Member::Known(EventType::RoomPowerLevels),
        RoomEvent::RoomRedaction(_) => Member::Known(EventType::RoomRedaction),
        RoomEvent::RoomThirdPartyInvite(_) => Member::Known(EventType::RoomThirdPartyInvite),
        RoomEvent::RoomTopic(_) => Member::Known(EventType::RoomTopic),
        RoomEvent::CustomRoom(_) => Member::CustomRoom,
        RoomEvent::CustomState(_) => Member::CustomState,
    }
}

/// The member that a `StateEvent` value inhabits.
pub open spec fn spec_state_event_member_of(e: StateEvent) -> Member {
    match e {
        StateEvent::RoomAliases(_) => Member::Known(EventType::RoomAliases),
        StateEvent::RoomAvatar(_) => Member::Known(EventType::RoomAvatar),
        StateEvent::RoomCanonicalAlias(_) => Member::Known(EventType::RoomCanonicalAlias),
        StateEvent::RoomCreate(_) => Member::Known(EventType::RoomCreate),
        StateEvent::RoomGuestAccess(_) => Member::Known(EventType::RoomGuestAccess),
        StateEvent::RoomHistoryVisibility(_) => Member::Known(EventType::RoomHistoryVisibility),
        StateEvent::RoomJoinRules(_) => Member::Known(EventType::RoomJoinRules),
        StateEvent::RoomMember(_) => Member::Known(EventType::RoomMember),
        StateEvent::RoomName(_) => Member::Known(EventType::RoomName),
        StateEvent::RoomPowerLevels(_) => Member::Known(EventType::RoomPowerLevels),
        StateEvent::RoomThirdPartyInvite(_) => Member::Known(EventType::RoomThirdPartyInvite),
        StateEvent::RoomTopic(_) => Member::Known(EventType::RoomTopic),
        StateEvent::CustomState(_) => Member::CustomState,
    }
}

/// A custom record's discriminator carries the raw `"type"` string of `v`.
pub open spec fn spec_custom_type_from(v: JsonValue, t: EventType) -> bool {
    spec_get(v, "type"@) matches Some(JsonValue::Str(s)) && t == EventType::Custom(s)
}

/// `e` is a correct decoding of `v` as an `Event`: the input selects
/// exactly `e`'s member, and `e`'s record holds the input's fields.
pub open spec fn spec_event_from(v: JsonValue, e: Event) -> bool {
    let fields = spec_obj_fields(v);
    &&& spec_event_target(v) == Ok::<Member, DecodeError>(spec_event_member_of(e))
    &&& match e {
        Event::CallAnswer(rec) => spec_room_from(fields, rec) && rec.event_type
            == EventType::CallAnswer,
        Event::CallCandidates(rec) => spec_room_from(fields, rec) && rec.event_type
            == EventType::CallCandidates,
        Event::CallHangup(rec) => spec_room_from(fields, rec) && rec.event_type
            == EventType::CallHangup,
        Event::CallInvite(rec) => spec_room_from(fields, rec) && rec.event_type
            == EventType::CallInvite,
        Event::Presence(rec) => spec_basic_from(fields, rec) && rec.event_type
            == EventType::Presence,
        Event::Receipt(rec) => spec_receipt_event_from(fields, rec),
        Event::RoomAliases(rec) => spec_state_from(fields, rec) && rec.event_type
            == EventType::RoomAliases,
        Event::RoomAvatar(rec) => spec_state_from(fields, rec) && rec.event_type
            == EventType::RoomAvatar,
        Event::RoomCanonicalAlias(rec) => spec_state_from(fields, rec) && rec.event_type
            == EventType::RoomCanonicalAlias,
        Event::RoomCreate(rec) => spec_state_from(fields, rec) && rec.event_type
            == EventType::RoomCreate,
        Event::RoomGuestAccess(rec) => spec_state_from(fields, rec) && rec.event_type
            == EventType::RoomGuestAccess,
        Event::RoomHistoryVisibility(rec) => spec_state_from(fields, rec) && rec.event_type
            == EventType::RoomHistoryVisibility,
        Event::RoomJoinRules(rec) => spec_state_from(fields, rec) && rec.event_type
            == EventType::RoomJoinRules,
        Event::RoomMember(rec) => spec_state_from(fields, rec) && rec.event_type
            == EventType::RoomMember,
        Event::RoomMessage(rec) => spec_room_from(fields, rec) && rec.event_type
            == EventType::RoomMessage,
        Event::RoomName(rec) => spec_state_from(fields, rec) && rec.event_type
            == EventType::RoomName,
        Event::RoomPowerLevels(rec) => spec_state_from(fields, rec) && rec.event_type
            == EventType::RoomPowerLevels,
        Event::RoomRedaction(rec) => spec_room_from(fields, rec) && rec.event_type
            == EventType::RoomRedaction,
        Event::RoomThirdPartyInvite(rec) => spec_state_from(fields, rec) && rec.event_type
            == EventType::RoomThirdPartyInvite,
        Event::RoomTopic(rec) => spec_state_from(fields, rec) && rec.event_type
            == EventType::RoomTopic,
        Event::Tag(rec) => spec_basic_from(fields, rec) && rec.event_type == EventType::Tag,
        Event::Typing(rec) => spec_basic_from(fields, rec) && rec.event_type == EventType::Typing,
        Event::Custom(rec) => spec_custom_basic_from(fields, rec) && spec_custom_type_from(
            v,
            rec.event_type,
        ),
        Event::CustomRoom(rec) => spec_custom_room_from(fields, rec) && spec_custom_type_from(
            v,
            rec.event_type,
        ),
        Event::CustomState(rec) => spec_custom_state_from(fields, rec) && spec_custom_type_from(
            v,
            rec.event_type,
        ),
    }
}

/// `e` is a correct decoding of `v` as a `RoomEvent`.
pub open spec fn spec_room_event_from(v: JsonValue, e: RoomEvent) -> bool {
    let fields = spec_obj_fields(v);
    &&& spec_room_event_target(v) == Ok::<Member, DecodeError>(spec_room_event_member_of(e))
    &&& match e {
        RoomEvent::CallAnswer(rec) => spec_room_from(fields, rec) && rec.event_type
            == EventType::CallAnswer,
        RoomEvent::CallCandidates(rec) => spec_room_from(fields, rec) && rec.event_type
            == EventType::CallCandidates,
        RoomEvent::CallHangup(rec) => spec_room_from(fields, rec) && rec.event_type
            == EventType::CallHangup,
        RoomEvent::CallInvite(rec) => spec_room_from(fields, rec) && rec.event_type
            == EventType::CallInvite,
        RoomEvent::RoomAliases(rec) => spec_state_from(fields, rec) && rec.event_type
            == EventType::RoomAliases,
        RoomEvent::RoomAvatar(rec) => spec_state_from(fields, rec) && rec.event_type
            == EventType::RoomAvatar,
        RoomEvent::RoomCanonicalAlias(rec) => spec_state_from(fields, rec) && rec.event_type
            == EventType::RoomCanonicalAlias,
        RoomEvent::RoomCreate(rec) => spec_state_from(fields, rec) && rec.event_type
            == EventType::RoomCreate,
        RoomEvent::RoomGuestAccess(rec) => spec_state_from(fields, rec) && rec.event_type
            == EventType::RoomGuestAccess,
        RoomEvent::RoomHistoryVisibility(rec) => spec_state_from(fields, rec) && rec.event_type
            == EventType::RoomHistoryVisibility,
        RoomEvent::RoomJoinRules(rec) => spec_state_from(fields, rec) && rec.event_type
            == EventType::RoomJoinRules,
        RoomEvent::RoomMember(rec) => spec_state_from(fields, rec) && rec.event_type
            == EventType::RoomMember,
        RoomEvent::RoomMessage(rec) => spec_room_from(fields, rec) && rec.event_type
            == EventType::RoomMessage,
        RoomEvent::RoomName(rec) => spec_state_from(fields, rec) && rec.event_type
            == EventType::RoomName,
        RoomEvent::RoomPowerLevels(rec) => spec_state_from(fields, rec) && rec.event_type
            == EventType::RoomPowerLevels,
        RoomEvent::RoomRedaction(rec) => spec_room_from(fields, rec) && rec.event_type
            == EventType::RoomRedaction,
        RoomEvent::RoomThirdPartyInvite(rec) => spec_state_from(fields, rec) && rec.event_type
            == EventType::RoomThirdPartyInvite,
        RoomEvent::RoomTopic(rec) => spec_state_from(fields, rec) && rec.event_type
            == EventType::RoomTopic,
        RoomEvent::CustomRoom(rec) => spec_custom_room_from(fields, rec) && spec_custom_type_from(
            v,
            rec.event_type,
        ),
        RoomEvent::CustomState(rec) => spec_custom_state_from(fields, rec)
            && spec_custom_type_from(v, rec.event_type),
    }
}

/// `e` is a correct decoding of `v` as a `StateEvent`.
pub open spec fn spec_state_event_from(v: JsonValue, e: StateEvent) -> bool {
    let fields = spec_obj_fields(v);
    &&& spec_state_event_target(v) == Ok::<Member, DecodeError>(spec_state_event_member_of(e))
    &&& match e {
        StateEvent::RoomAliases(rec) => spec_state_from(fields, rec) && rec.event_type
            == EventType::RoomAliases,
        StateEvent::RoomAvatar(rec) => spec_state_from(fields, rec) && rec.event_type
            == EventType::RoomAvatar,
        StateEvent::RoomCanonicalAlias(rec) => spec_state_from(fields, rec) && rec.event_type
            == EventType::RoomCanonicalAlias,
        StateEvent::RoomCreate(rec) => spec_state_from(fields, rec) && rec.event_type
            == EventType::RoomCreate,
        StateEvent::RoomGuestAccess(rec) => spec_state_from(fields, rec) && rec.event_type
            == EventType::RoomGuestAccess,
        StateEvent::RoomHistoryVisibility(rec) => spec_state_from(fields, rec) && rec.event_type
            == EventType::RoomHistoryVisibility,
        StateEvent::RoomJoinRules(rec) => spec_state_from(fields, rec) && rec.event_type
            == EventType::RoomJoinRules,
        StateEvent::RoomMember(rec) => spec_state_from(fields, rec) && rec.event_type
            == EventType::RoomMember,
        StateEvent::RoomName(rec) => spec_state_from(fields, rec) && rec.event_type
            == EventType::RoomName,
        StateEvent::RoomPowerLevels(rec) => spec_state_from(fields, rec) && rec.event_type
            == EventType::RoomPowerLevels,
        StateEvent::RoomThirdPartyInvite(rec) => spec_state_from(fields, rec) && rec.event_type
            == EventType::RoomThirdPartyInvite,
        StateEvent::RoomTopic(rec) => spec_state_from(fields, rec) && rec.event_type
            == EventType::RoomTopic,
        StateEvent::CustomState(rec) => spec_custom_state_from(fields, rec)
            && spec_custom_type_from(v, rec.event_type),
    }
}

/// An encoded `Event`: the encoding of whichever record it holds.
pub open spec fn spec_event_encoding(e: Event, v: JsonValue) -> bool {
    match e {
        Event::CallAnswer(rec) => spec_room_encoding(rec, v),
        Event::CallCandidates(rec) => spec_room_encoding(rec, v),
        Event::CallHangup(rec) => spec_room_encoding(rec, v),
        Event::CallInvite(rec) => spec_room_encoding(rec, v),
        Event::Presence(rec) => spec_basic_encoding(rec, v),
        Event::Receipt(rec) => spec_receipt_event_encoding(rec, v),
        Event::RoomAliases(rec) => spec_state_encoding(rec, v),
        Event::RoomAvatar(rec) => spec_state_encoding(rec, v),
        Event::RoomCanonicalAlias(rec) => spec_state_encoding(rec, v),
        Event::RoomCreate(rec) => spec_state_encoding(rec, v),
        Event::RoomGuestAccess(rec) => spec_state_encoding(rec, v),
        Event::RoomHistoryVisibility(rec) => spec_state_encoding(rec, v),
        Event::RoomJoinRules(rec) => spec_state_encoding(rec, v),
        Event::RoomMember(rec) => spec_state_encoding(rec, v),
        Event::RoomMessage(rec) => spec_room_encoding(rec, v),
        Event::RoomName(rec) => spec_state_encoding(rec, v),
        Event::RoomPowerLevels(rec) => spec_state_encoding(rec, v),
        Event::RoomRedaction(rec) => spec_room_encoding(rec, v),
        Event::RoomThirdPartyInvite(rec) => spec_state_encoding(rec, v),
        Event::RoomTopic(rec) => spec_state_encoding(rec, v),
        Event::Tag(rec) => spec_basic_encoding(rec, v),
        Event::Typing(rec) => spec_basic_encoding(rec, v),
        Event::Custom(rec) => spec_custom_basic_encoding(rec, v),
        Event::CustomRoom(rec) => spec_custom_room_encoding(rec, v),
        Event::CustomState(rec) => spec_custom_state_encoding(rec, v),
    }
}

/// An encoded `RoomEvent`: the encoding of whichever record it holds.
pub open spec fn spec_room_event_encoding(e: RoomEvent, v: JsonValue) -> bool {
    match e {
        RoomEvent::CallAnswer(rec) => spec_room_encoding(rec, v),
        RoomEvent::CallCandidates(rec) => spec_room_encoding(rec, v),
        RoomEvent::CallHangup(rec) => spec_room_encoding(rec, v),
        RoomEvent::CallInvite(rec) => spec_room_encoding(rec, v),
        RoomEvent::RoomAliases(rec) => spec_state_encoding(rec, v),
        RoomEvent::RoomAvatar(rec) => spec_state_encoding(rec, v),
        RoomEvent::RoomCanonicalAlias(rec) => spec_state_encoding(rec, v),
        RoomEvent::RoomCreate(rec) => spec_state_encoding(rec, v),
        RoomEvent::RoomGuestAccess(rec) => spec_state_encoding(rec, v),
        RoomEvent::RoomHistoryVisibility(rec) => spec_state_encoding(rec, v),
        RoomEvent::RoomJoinRules(rec) => spec_state_encoding(rec, v),
        RoomEvent::RoomMember(rec) => spec_state_encoding(rec, v),
        RoomEvent::RoomMessage(rec) => spec_room_encoding(rec, v),
        RoomEvent::RoomName(rec) => spec_state_encoding(rec, v),
        RoomEvent::RoomPowerLevels(rec) => spec_state_encoding(rec, v),
        RoomEvent::RoomRedaction(rec) => spec_room_encoding(rec, v),
        RoomEvent::RoomThirdPartyInvite(rec) => spec_state_encoding(rec, v),
        RoomEvent::RoomTopic(rec) => spec_state_encoding(rec, v),
        RoomEvent::CustomRoom(rec) => spec_custom_room_encoding(rec, v),
        RoomEvent::CustomState(rec) => spec_custom_state_encoding(rec, v),
    }
}

/// An encoded `StateEvent`: the encoding of whichever record it holds.
pub open spec fn spec_state_event_encoding(e: StateEvent, v: JsonValue) -> bool {
    match e {
        StateEvent::RoomAliases(rec) => spec_state_encoding(rec, v),
        StateEvent::RoomAvatar(rec) => spec_state_encoding(rec, v),
        StateEvent::RoomCanonicalAlias(rec) => spec_state_encoding(rec, v),
        StateEvent::RoomCreate(rec) => spec_state_encoding(rec, v),
        StateEvent::RoomGuestAccess(rec) => spec_state_encoding(rec, v),
        StateEvent::RoomHistoryVisibility(rec) => spec_state_encoding(rec, v),
        StateEvent::RoomJoinRules(rec) => spec_state_encoding(rec, v),
        StateEvent::RoomMember(rec) => spec_state_encoding(rec, v),
        StateEvent::RoomName(rec) => spec_state_encoding(rec, v),
        StateEvent::RoomPowerLevels(rec) => spec_state_encoding(rec, v),
        StateEvent::RoomThirdPartyInvite(rec) => spec_state_encoding(rec, v),
        StateEvent::RoomTopic(rec) => spec_state_encoding(rec, v),
        StateEvent::CustomState(rec) => spec_custom_state_encoding(rec, v),
    }
}

/// Resolves the discriminator from the value of the `"type"` field.
fn parse_type_value(tv: &JsonValue) -> (r: Result<EventType, DecodeError>)
    ensures
        match r {
            Ok(t) => tv matches JsonValue::Str(s) && t == spec_parse_type(*s),
            Err(e) => e == DecodeError::MalformedDiscriminator && !(tv matches JsonValue::Str(_)),
        },
{
    match tv {
        JsonValue::Str(s) => Ok(parse_event_type(s)),
        _ => Err(DecodeError::MalformedDiscriminator),
    }
}

impl Event {
    /// Decodes one message: resolves the discriminator from the `"type"`
    /// field, then re-parses the whole input as the selected member's
    /// record. Every discriminator is legal; an unrecognized one selects a
    /// custom member by field presence, `state_key` first.
    #[verifier::rlimit(100)]
    pub fn deserialize(v: JsonValue) -> (r: Result<Event, DecodeError>)
        ensures
            match r {
                Ok(e) => spec_event_decode_err(v) is None && spec_event_from(v, e),
                Err(err) => spec_event_decode_err(v) == Some(err),
            },
    {
        let fields = match v {
            JsonValue::Obj(fields) => fields,
            _ => {
                return Err(DecodeError::MissingDiscriminator);
            },
        };
        let t = {
            let tv = match get_field(&fields, "type") {
                Some(tv) => tv,
                None => {
                    return Err(DecodeError::MissingDiscriminator);
                },
            };
            match parse_type_value(tv) {
                Ok(t) => t,
                Err(e) => {
                    return Err(e);
                },
            }
        };
        match t {
            EventType::CallAnswer => match parse_room_scoped(fields, EventType::CallAnswer) {
                Ok(rec) => Ok(Event::CallAnswer(rec)),
                Err(f) => Err(DecodeError::LeafDecodeFailure(f)),
            },
            EventType::CallCandidates => match parse_room_scoped(
                fields,
                EventType::CallCandidates,
            ) {
                Ok(rec) => Ok(Event::CallCandidates(rec)),
                Err(f) => Err(DecodeError::LeafDecodeFailure(f)),
            },
            EventType::CallHangup => match parse_room_scoped(fields, EventType::CallHangup) {
                Ok(rec) => Ok(Event::CallHangup(rec)),
                Err(f) => Err(DecodeError::LeafDecodeFailure(f)),
            },
            EventType::CallInvite => match parse_room_scoped(fields, EventType::CallInvite) {
                Ok(rec) => Ok(Event::CallInvite(rec)),
                Err(f) => Err(DecodeError::LeafDecodeFailure(f)),
            },
            EventType::Presence => match parse_basic(fields, EventType::Presence) {
                Ok(rec) => Ok(Event::Presence(rec)),
                Err(f) => Err(DecodeError::LeafDecodeFailure(f)),
            },
            EventType::Receipt => match parse_receipt_event(fields) {
                Ok(rec) => Ok(Event::Receipt(rec)),
                Err(f) => Err(DecodeError::LeafDecodeFailure(f)),
            },
            EventType::RoomAliases => match parse_state_scoped(fields, EventType::RoomAliases) {
                Ok(rec) => Ok(Event::RoomAliases(rec)),
                Err(f) => Err(DecodeError::LeafDecodeFailure(f)),
            },
            EventType::RoomAvatar => match parse_state_scoped(fields, EventType::RoomAvatar) {
                Ok(rec) => Ok(Event::RoomAvatar(rec)),
                Err(f) => Err(DecodeError::LeafDecodeFailure(f)),
            },
            EventType::RoomCanonicalAlias => match parse_state_scoped(
                fields,
                EventType::RoomCanonicalAlias,
            ) {
                Ok(rec) => Ok(Event::RoomCanonicalAlias(rec)),
                Err(f) => Err(DecodeError::LeafDecodeFailure(f)),
            },
            EventType::RoomCreate => match parse_state_scoped(fields, EventType::RoomCreate) {
                Ok(rec) => Ok(Event::RoomCreate(rec)),
                Err(f) => Err(DecodeError::LeafDecodeFailure(f)),
            },
            EventType::RoomGuestAccess => match parse_state_scoped(
                fields,
                EventType::RoomGuestAccess,
            ) {
                Ok(rec) => Ok(Event::RoomGuestAccess(rec)),
                Err(f) => Err(DecodeError::LeafDecodeFailure(f)),
            },
            EventType::RoomHistoryVisibility => match parse_state_scoped(
                fields,
                EventType::RoomHistoryVisibility,
            ) {
                Ok(rec) => Ok(Event::RoomHistoryVisibility(rec)),
                Err(f) => Err(DecodeError::LeafDecodeFailure(f)),
            },
            EventType::RoomJoinRules => match parse_state_scoped(
                fields,
                EventType::RoomJoinRules,
            ) {
                Ok(rec) => Ok(Event::RoomJoinRules(rec)),
                Err(f) => Err(DecodeError::LeafDecodeFailure(f)),
            },
            EventType::RoomMember => match parse_state_scoped(fields, EventType::RoomMember) {
                Ok(rec) => Ok(Event::RoomMember(rec)),
                Err(f) => Err(DecodeError::LeafDecodeFailure(f)),
            },
            EventType::RoomMessage => match parse_room_scoped(fields, EventType::RoomMessage) {
                Ok(rec) => Ok(Event::RoomMessage(rec)),
                Err(f) => Err(DecodeError::LeafDecodeFailure(f)),
            },
            EventType::RoomName => match parse_state_scoped(fields, EventType::RoomName) {
                Ok(rec) => Ok(Event::RoomName(rec)),
                Err(f) => Err(DecodeError::LeafDecodeFailure(f)),
            },
            EventType::RoomPowerLevels => match parse_state_scoped(
                fields,
                EventType::RoomPowerLevels,
            ) {
                Ok(rec) => Ok(Event::RoomPowerLevels(rec)),
                Err(f) => Err(DecodeError::LeafDecodeFailure(f)),
            },
            EventType::RoomRedaction => match parse_room_scoped(
                fields,
                EventType::RoomRedaction,
            ) {
                Ok(rec) => Ok(Event::RoomRedaction(rec)),
                Err(f) => Err(DecodeError::LeafDecodeFailure(f)),
            },
            EventType::RoomThirdPartyInvite => match parse_state_scoped(
                fields,
                EventType::RoomThirdPartyInvite,
            ) {
                Ok(rec) => Ok(Event::RoomThirdPartyInvite(rec)),
                Err(f) => Err(DecodeError::LeafDecodeFailure(f)),
            },
            EventType::RoomTopic => match parse_state_scoped(fields, EventType::RoomTopic) {
                Ok(rec) => Ok(Event::RoomTopic(rec)),
                Err(f) => Err(DecodeError::LeafDecodeFailure(f)),
            },
            EventType::Tag => match parse_basic(fields, EventType::Tag) {
                Ok(rec) => Ok(Event::Tag(rec)),
                Err(f) => Err(DecodeError::LeafDecodeFailure(f)),
            },
            EventType::Typing => match parse_basic(fields, EventType::Typing) {
                Ok(rec) => Ok(Event::Typing(rec)),
                Err(f) => Err(DecodeError::LeafDecodeFailure(f)),
            },
            EventType::Custom(raw) => {
                if find_field(&fields, "state_key").is_some() {
                    match parse_custom_state(fields, EventType::Custom(raw)) {
                        Ok(rec) => Ok(Event::CustomState(rec)),
                        Err(f) => Err(DecodeError::LeafDecodeFailure(f)),
                    }
                } else if find_field(&fields, "event_id").is_some() && find_field(
                    &fields,
                    "room_id",
                ).is_some() && find_field(&fields, "sender").is_some() {
                    match parse_custom_room(fields, EventType::Custom(raw)) {
                        Ok(rec) => Ok(Event::CustomRoom(rec)),
                        Err(f) => Err(DecodeError::LeafDecodeFailure(f)),
                    }
                } else {
                    match parse_custom_basic(fields, EventType::Custom(raw)) {
                        Ok(rec) => Ok(Event::Custom(rec)),
                        Err(f) => Err(DecodeError::LeafDecodeFailure(f)),
                    }
                }
            },
        }
    }

    /// Encodes the event by delegating to the record it holds; the record
    /// re-emits its own discriminator tag. Encoding cannot fail.
    pub fn serialize(self) -> (r: JsonValue)
        ensures
            spec_event_encoding(self, r),
    {
        match self {
            Event::CallAnswer(rec) => rec.serialize(),
            Event::CallCandidates(rec) => rec.serialize(),
            Event::CallHangup(rec) => rec.serialize(),
            Event::CallInvite(rec) => rec.serialize(),
            Event::Presence(rec) => rec.serialize(),
            Event::Receipt(rec) => rec.serialize(),
            Event::RoomAliases(rec) => rec.serialize(),
            Event::RoomAvatar(rec) => rec.serialize(),
            Event::RoomCanonicalAlias(rec) => rec.serialize(),
            Event::RoomCreate(rec) => rec.serialize(),
            Event::RoomGuestAccess(rec) => rec.serialize(),
            Event::RoomHistoryVisibility(rec) => rec.serialize(),
            Event::RoomJoinRules(rec) => rec.serialize(),
            Event::RoomMember(rec) => rec.serialize(),
            Event::RoomMessage(rec) => rec.serialize(),
            Event::RoomName(rec) => rec.serialize(),
            Event::RoomPowerLevels(rec) => rec.serialize(),
            Event::RoomRedaction(rec) => rec.serialize(),
            Event::RoomThirdPartyInvite(rec) => rec.serialize(),
            Event::RoomTopic(rec) => rec.serialize(),
            Event::Tag(rec) => rec.serialize(),
            Event::Typing(rec) => rec.serialize(),
            Event::Custom(rec) => rec.serialize(),
            Event::CustomRoom(rec) => rec.serialize(),
            Event::CustomState(rec) => rec.serialize(),
        }
    }
}

impl RoomEvent {
    /// Decodes one message as a room event. Basic discriminators are
    /// illegal here; an unrecognized discriminator selects the state or
    /// room fallback, with no basic fallback.
    #[verifier::rlimit(100)]
    pub fn deserialize(v: JsonValue) -> (r: Result<RoomEvent, DecodeError>)
        ensures
            match r {
                Ok(e) => spec_room_event_decode_err(v) is None && spec_room_event_from(v, e),
                Err(err) => spec_room_event_decode_err(v) == Some(err),
            },
    {
        let fields = match v {
            JsonValue::Obj(fields) => fields,
            _ => {
                return Err(DecodeError::MissingDiscriminator);
            },
        };
        let t = {
            let tv = match get_field(&fields, "type") {
                Some(tv) => tv,
                None => {
                    return Err(DecodeError::MissingDiscriminator);
                },
            };
            match parse_type_value(tv) {
                Ok(t) => t,
                Err(e) => {
                    return Err(e);
                },
            }
        };
        match t {
            EventType::CallAnswer => match parse_room_scoped(fields, EventType::CallAnswer) {
                Ok(rec) => Ok(RoomEvent::CallAnswer(rec)),
                Err(f) => Err(DecodeError::LeafDecodeFailure(f)),
            },
            EventType::CallCandidates => match parse_room_scoped(
                fields,
                EventType::CallCandidates,
            ) {
                Ok(rec) => Ok(RoomEvent::CallCandidates(rec)),
                Err(f) => Err(DecodeError::LeafDecodeFailure(f)),
            },
            EventType::CallHangup => match parse_room_scoped(fields, EventType::CallHangup) {
                Ok(rec) => Ok(RoomEvent::CallHangup(rec)),
                Err(f) => Err(DecodeError::LeafDecodeFailure(f)),
            },
            EventType::CallInvite => match parse_room_scoped(fields, EventType::CallInvite) {
                Ok(rec) => Ok(RoomEvent::CallInvite(rec)),
                Err(f) => Err(DecodeError::LeafDecodeFailure(f)),
            },
            EventType::RoomAliases => match parse_state_scoped(fields, EventType::RoomAliases) {
                Ok(rec) => Ok(RoomEvent::RoomAliases(rec)),
                Err(f) => Err(DecodeError::LeafDecodeFailure(f)),
            },
            EventType::RoomAvatar => match parse_state_scoped(fields, EventType::RoomAvatar) {
                Ok(rec) => Ok(RoomEvent::RoomAvatar(rec)),
                Err(f) => Err(DecodeError::LeafDecodeFailure(f)),
            },
            EventType::RoomCanonicalAlias => match parse_state_scoped(
                fields,
                EventType::RoomCanonicalAlias,
            ) {
                Ok(rec) => Ok(RoomEvent::RoomCanonicalAlias(rec)),
                Err(f) => Err(DecodeError::LeafDecodeFailure(f)),
            },
            EventType::RoomCreate => match parse_state_scoped(fields, EventType::RoomCreate) {
                Ok(rec) => Ok(RoomEvent::RoomCreate(rec)),
                Err(f) => Err(DecodeError::LeafDecodeFailure(f)),
            },
            EventType::RoomGuestAccess => match parse_state_scoped(
                fields,
                EventType::RoomGuestAccess,
            ) {
                Ok(rec) => Ok(RoomEvent::RoomGuestAccess(rec)),
                Err(f) => Err(DecodeError::LeafDecodeFailure(f)),
            },
            EventType::RoomHistoryVisibility => match parse_state_scoped(
                fields,
                EventType::RoomHistoryVisibility,
            ) {
                Ok(rec) => Ok(RoomEvent::RoomHistoryVisibility(rec)),
                Err(f) => Err(DecodeError::LeafDecodeFailure(f)),
            },
            EventType::RoomJoinRules => match parse_state_scoped(
                fields,
                EventType::RoomJoinRules,
            ) {
                Ok(rec) => Ok(RoomEvent::RoomJoinRules(rec)),
                Err(f) => Err(DecodeError::LeafDecodeFailure(f)),
            },
            EventType::RoomMember => match parse_state_scoped(fields, EventType::RoomMember) {
                Ok(rec) => Ok(RoomEvent::RoomMember(rec)),
                Err(f) => Err(DecodeError::LeafDecodeFailure(f)),
            },
            EventType::RoomMessage => match parse_room_scoped(fields, EventType::RoomMessage) {
                Ok(rec) => Ok(RoomEvent::RoomMessage(rec)),
                Err(f) => Err(DecodeError::LeafDecodeFailure(f)),
            },
            EventType::RoomName => match parse_state_scoped(fields, EventType::RoomName) {
                Ok(rec) => Ok(RoomEvent::RoomName(rec)),
                Err(f) => Err(DecodeError::LeafDecodeFailure(f)),
            },
            EventType::RoomPowerLevels => match parse_state_scoped(
                fields,
                EventType::RoomPowerLevels,
            ) {
                Ok(rec) => Ok(RoomEvent::RoomPowerLevels(rec)),
                Err(f) => Err(DecodeError::LeafDecodeFailure(f)),
            },
            EventType::RoomRedaction => match parse_room_scoped(
                fields,
                EventType::RoomRedaction,
            ) {
                Ok(rec) => Ok(RoomEvent::RoomRedaction(rec)),
                Err(f) => Err(DecodeError::LeafDecodeFailure(f)),
            },
            EventType::RoomThirdPartyInvite => match parse_state_scoped(
                fields,
                EventType::RoomThirdPartyInvite,
            ) {
                Ok(rec) => Ok(RoomEvent::RoomThirdPartyInvite(rec)),
                Err(f) => Err(DecodeError::LeafDecodeFailure(f)),
            },
            EventType::RoomTopic => match parse_state_scoped(fields, EventType::RoomTopic) {
                Ok(rec) => Ok(RoomEvent::RoomTopic(rec)),
                Err(f) => Err(DecodeError::LeafDecodeFailure(f)),
            },
            EventType::Custom(raw) => {
                if find_field(&fields, "state_key").is_some() {
                    match parse_custom_state(fields, EventType::Custom(raw)) {
                        Ok(rec) => Ok(RoomEvent::CustomState(rec)),
                        Err(f) => Err(DecodeError::LeafDecodeFailure(f)),
                    }
                } else {
                    match parse_custom_room(fields, EventType::Custom(raw)) {
                        Ok(rec) => Ok(RoomEvent::CustomRoom(rec)),
                        Err(f) => Err(DecodeError::LeafDecodeFailure(f)),
                    }
                }
            },
            EventType::Presence | EventType::Receipt | EventType::Tag | EventType::Typing => Err(
                DecodeError::IllegalMemberForContainer,
            ),
        }
    }

    /// Encodes the event by delegating to the record it holds; the record
    /// re-emits its own discriminator tag. Encoding cannot fail.
    pub fn serialize(self) -> (r: JsonValue)
        ensures
            spec_room_event_encoding(self, r),
    {
        match self {
            RoomEvent::CallAnswer(rec) => rec.serialize(),
            RoomEvent::CallCandidates(rec) => rec.serialize(),
            RoomEvent::CallHangup(rec) => rec.serialize(),
            RoomEvent::CallInvite(rec) => rec.serialize(),
            RoomEvent::RoomAliases(rec) => rec.serialize(),
            RoomEvent::RoomAvatar(rec) => rec.serialize(),
            RoomEvent::RoomCanonicalAlias(rec) => rec.serialize(),
            RoomEvent::RoomCreate(rec) => rec.serialize(),
            RoomEvent::RoomGuestAccess(rec) => rec.serialize(),
            RoomEvent::RoomHistoryVisibility(rec) => rec.serialize(),
            RoomEvent::RoomJoinRules(rec) => rec.serialize(),
            RoomEvent::RoomMember(rec) => rec.serialize(),
            RoomEvent::RoomMessage(rec) => rec.serialize(),
            RoomEvent::RoomName(rec) => rec.serialize(),
            RoomEvent::RoomPowerLevels(rec) => rec.serialize(),
            RoomEvent::RoomRedaction(rec) => rec.serialize(),
            RoomEvent::RoomThirdPartyInvite(rec) => rec.serialize(),
            RoomEvent::RoomTopic(rec) => rec.serialize(),
            RoomEvent::CustomRoom(rec) => rec.serialize(),
            RoomEvent::CustomState(rec) => rec.serialize(),
        }
    }
}

impl StateEvent {
    /// Decodes one message as a state event. Only state discriminators are
    /// legal; every unrecognized discriminator is decoded as the state
    /// fallback with no field presence check, so a payload without a
    /// `state_key` fails the record's own structural decode.
    #[verifier::rlimit(100)]
    pub fn deserialize(v: JsonValue) -> (r: Result<StateEvent, DecodeError>)
        ensures
            match r {
                Ok(e) => spec_state_event_decode_err(v) is None && spec_state_event_from(v, e),
                Err(err) => spec_state_event_decode_err(v) == Some(err),
            },
    {
        let fields = match v {
            JsonValue::Obj(fields) => fields,
            _ => {
                return Err(DecodeError::MissingDiscriminator);
            },
        };
        let t = {
            let tv = match get_field(&fields, "type") {
                Some(tv) => tv,
                None => {
                    return Err(DecodeError::MissingDiscriminator);
                },
            };
            match parse_type_value(tv) {
                Ok(t) => t,
                Err(e) => {
                    return Err(e);
                },
            }
        };
        match t {
            EventType::RoomAliases => match parse_state_scoped(fields, EventType::RoomAliases) {
                Ok(rec) => Ok(StateEvent::RoomAliases(rec)),
                Err(f) => Err(DecodeError::LeafDecodeFailure(f)),
            },
            EventType::RoomAvatar => match parse_state_scoped(fields, EventType::RoomAvatar) {
                Ok(rec) => Ok(StateEvent::RoomAvatar(rec)),
                Err(f) => Err(DecodeError::LeafDecodeFailure(f)),
            },
            EventType::RoomCanonicalAlias => match parse_state_scoped(
                fields,
                EventType::RoomCanonicalAlias,
            ) {
                Ok(rec) => Ok(StateEvent::RoomCanonicalAlias(rec)),
                Err(f) => Err(DecodeError::LeafDecodeFailure(f)),
            },
            EventType::RoomCreate => match parse_state_scoped(fields, EventType::RoomCreate) {
                Ok(rec) => Ok(StateEvent::RoomCreate(rec)),
                Err(f) => Err(DecodeError::LeafDecodeFailure(f)),
            },
            EventType::RoomGuestAccess => match parse_state_scoped(
                fields,
                EventType::RoomGuestAccess,
            ) {
                Ok(rec) => Ok(StateEvent::RoomGuestAccess(rec)),
                Err(f) => Err(DecodeError::LeafDecodeFailure(f)),
            },
            EventType::RoomHistoryVisibility => match parse_state_scoped(
                fields,
                EventType::RoomHistoryVisibility,
            ) {
                Ok(rec) => Ok(StateEvent::RoomHistoryVisibility(rec)),
                Err(f) => Err(DecodeError::LeafDecodeFailure(f)),
            },
            EventType::RoomJoinRules => match parse_state_scoped(
                fields,
                EventType::RoomJoinRules,
            ) {
                Ok(rec) => Ok(StateEvent::RoomJoinRules(rec)),
                Err(f) => Err(DecodeError::LeafDecodeFailure(f)),
            },
            EventType::RoomMember => match parse_state_scoped(fields, EventType::RoomMember) {
                Ok(rec) => Ok(StateEvent::RoomMember(rec)),
                Err(f) => Err(DecodeError::LeafDecodeFailure(f)),
            },
            EventType::RoomName => match parse_state_scoped(fields, EventType::RoomName) {
                Ok(rec) => Ok(StateEvent::RoomName(rec)),
                Err(f) => Err(DecodeError::LeafDecodeFailure(f)),
            },
            EventType::RoomPowerLevels => match parse_state_scoped(
                fields,
                EventType::RoomPowerLevels,
            ) {
                Ok(rec) => Ok(StateEvent::RoomPowerLevels(rec)),
                Err(f) => Err(DecodeError::LeafDecodeFailure(f)),
            },
            EventType::RoomThirdPartyInvite => match parse_state_scoped(
                fields,
                EventType::RoomThirdPartyInvite,
            ) {
                Ok(rec) => Ok(StateEvent::RoomThirdPartyInvite(rec)),
                Err(f) => Err(DecodeError::LeafDecodeFailure(f)),
            },
            EventType::RoomTopic => match parse_state_scoped(fields, EventType::RoomTopic) {
                Ok(rec) => Ok(StateEvent::RoomTopic(rec)),
                Err(f) => Err(DecodeError::LeafDecodeFailure(f)),
            },
            EventType::Custom(raw) => match parse_custom_state(fields, EventType::Custom(raw)) {
                Ok(rec) => Ok(StateEvent::CustomState(rec)),
                Err(f) => Err(DecodeError::LeafDecodeFailure(f)),
            },
            EventType::CallAnswer
            | EventType::CallCandidates
            | EventType::CallHangup
            | EventType::CallInvite
            | EventType::Presence
            | EventType::Receipt
            | EventType::RoomMessage
            | EventType::RoomRedaction
            | EventType::Tag
            | EventType::Typing => Err(DecodeError::IllegalMemberForContainer),
        }
    }

    /// Encodes the event by delegating to the record it holds; the record
    /// re-emits its own discriminator tag. Encoding cannot fail.
    pub fn serialize(self) -> (r: JsonValue)
        ensures
            spec_state_event_encoding(self, r),
    {
        match self {
            StateEvent::RoomAliases(rec) => rec.serialize(),
            StateEvent::RoomAvatar(rec) => rec.serialize(),
            StateEvent::RoomCanonicalAlias(rec) => rec.serialize(),
            StateEvent::RoomCreate(rec) => rec.serialize(),
            StateEvent::RoomGuestAccess(rec) => rec.serialize(),
            StateEvent::RoomHistoryVisibility(rec) => rec.serialize(),
            StateEvent::RoomJoinRules(rec) => rec.serialize(),
            StateEvent::RoomMember(rec) => rec.serialize(),
            StateEvent::RoomName(rec) => rec.serialize(),
            StateEvent::RoomPowerLevels(rec) => rec.serialize(),
            StateEvent::RoomThirdPartyInvite(rec) => rec.serialize(),
            StateEvent::RoomTopic(rec) => rec.serialize(),
            StateEvent::CustomState(rec) => rec.serialize(),
        }
    }
}

/// Total, lossless injections from each record into the container
/// members that may hold it.
impl Event {
    /// Wraps the record as the `CallAnswer` member, losslessly.
    pub fn from_call_answer(event: RoomScopedEvent) -> (r: Event)
        ensures
            r == Event::CallAnswer(event),
    {
        Event::CallAnswer(event)
    }

    /// Wraps the record as the `CallCandidates` member, losslessly.
    pub fn from_call_candidates(event: RoomScopedEvent) -> (r: Event)
        ensures
            r == Event::CallCandidates(event),
    {
        Event::CallCandidates(event)
    }

    /// Wraps the record as the `CallHangup` member, losslessly.
    pub fn from_call_hangup(event: RoomScopedEvent) -> (r: Event)
        ensures
            r == Event::CallHangup(event),
    {
        Event::CallHangup(event)
    }

    /// Wraps the record as the `CallInvite` member, losslessly.
    pub fn from_call_invite(event: RoomScopedEvent) -> (r: Event)
        ensures
            r == Event::CallInvite(event),
    {
        Event::CallInvite(event)
    }

    /// Wraps the record as the `Presence` member, losslessly.
    pub fn from_presence(event: BasicEvent) -> (r: Event)
        ensures
            r == Event::Presence(event),
    {
        Event::Presence(event)
    }

    /// Wraps the record as the `Receipt` member, losslessly.
    pub fn from_receipt(event: ReceiptEvent) -> (r: Event)
        ensures
            r == Event::Receipt(event),
    {
        Event::Receipt(event)
    }

    /// Wraps the record as the `RoomAliases` member, losslessly.
    pub fn from_room_aliases(event: StateScopedEvent) -> (r: Event)
        ensures
            r == Event::RoomAliases(event),
    {
        Event::RoomAliases(event)
    }

    /// Wraps the record as the `RoomAvatar` member, losslessly.
    pub fn from_room_avatar(event: StateScopedEvent) -> (r: Event)
        ensures
            r == Event::RoomAvatar(event),
    {
        Event::RoomAvatar(event)
    }

    /// Wraps the record as the `RoomCanonicalAlias` member, losslessly.
    pub fn from_room_canonical_alias(event: StateScopedEvent) -> (r: Event)
        ensures
            r == Event::RoomCanonicalAlias(event),
    {
        Event::RoomCanonicalAlias(event)
    }

    /// Wraps the record as the `RoomCreate` member, losslessly.
    pub fn from_room_create(event: StateScopedEvent) -> (r: Event)
        ensures
            r == Event::RoomCreate(event),
    {
        Event::RoomCreate(event)
    }

    /// Wraps the record as the `RoomGuestAccess` member, losslessly.
    pub fn from_room_guest_access(event: StateScopedEvent) -> (r: Event)
        ensures
            r == Event::RoomGuestAccess(event),
    {
        Event::RoomGuestAccess(event)
    }

    /// Wraps the record as the `RoomHistoryVisibility` member, losslessly.
    pub fn from_room_history_visibility(event: StateScopedEvent) -> (r: Event)
        ensures
            r == Event::RoomHistoryVisibility(event),
    {
        Event::RoomHistoryVisibility(event)
    }

    /// Wraps the record as the `RoomJoinRules` member, losslessly.
    pub fn from_room_join_rules(event: StateScopedEvent) -> (r: Event)
        ensures
            r == Event::RoomJoinRules(event),
    {
        Event::RoomJoinRules(event)
    }

    /// Wraps the record as the `RoomMember` member, losslessly.
    pub fn from_room_member(event: StateScopedEvent) -> (r: Event)
        ensures
            r == Event::RoomMember(event),
    {
        Event::RoomMember(event)
    }

    /// Wraps the record as the `RoomMessage` member, losslessly.
    pub fn from_room_message(event: RoomScopedEvent) -> (r: Event)
        ensures
            r == Event::RoomMessage(event),
    {
        Event::RoomMessage(event)
    }

    /// Wraps the record as the `RoomName` member, losslessly.
    pub fn from_room_name(event: StateScopedEvent) -> (r: Event)
        ensures
            r == Event::RoomName(event),
    {
        Event::RoomName(event)
    }

    /// Wraps the record as the `RoomPowerLevels` member, losslessly.
    pub fn from_room_power_levels(event: StateScopedEvent) -> (r: Event)
        ensures
            r == Event::RoomPowerLevels(event),
    {
        Event::RoomPowerLevels(event)
    }

    /// Wraps the record as the `RoomRedaction` member, losslessly.
    pub fn from_room_redaction(event: RoomScopedEvent) -> (r: Event)
        ensures
            r == Event::RoomRedaction(event),
    {
        Event::RoomRedaction(event)
    }

    /// Wraps the record as the `RoomThirdPartyInvite` member, losslessly.
    pub fn from_room_third_party_invite(event: StateScopedEvent) -> (r: Event)
        ensures
            r == Event::RoomThirdPartyInvite(event),
    {
        Event::RoomThirdPartyInvite(event)
    }

    /// Wraps the record as the `RoomTopic` member, losslessly.
    pub fn from_room_topic(event: StateScopedEvent) -> (r: Event)
        ensures
            r == Event::RoomTopic(event),
    {
        Event::RoomTopic(event)
    }

    /// Wraps the record as the `Tag` member, losslessly.
    pub fn from_tag(event: BasicEvent) -> (r: Event)
        ensures
            r == Event::Tag(event),
    {
        Event::Tag(event)
    }

    /// Wraps the record as the `Typing` member, losslessly.
    pub fn from_typing(event: BasicEvent) -> (r: Event)
        ensures
            r == Event::Typing(event),
    {
        Event::Typing(event)
    }

    /// Wraps the record as the `Custom` member, losslessly.
    pub fn from_custom(event: CustomEvent) -> (r: Event)
        ensures
            r == Event::Custom(event),
    {
        Event::Custom(event)
    }

    /// Wraps the record as the `CustomRoom` member, losslessly.
    pub fn from_custom_room(event: CustomRoomEvent) -> (r: Event)
        ensures
            r == Event::CustomRoom(event),
    {
        Event::CustomRoom(event)
    }

    /// Wraps the record as the `CustomState` member, losslessly.
    pub fn from_custom_state(event: CustomStateEvent) -> (r: Event)
        ensures
            r == Event::CustomState(event),
    {
        Event::CustomState(event)
    }
}

impl RoomEvent {
    /// Wraps the record as the `CallAnswer` member, losslessly.
    pub fn from_call_answer(event: RoomScopedEvent) -> (r: RoomEvent)
        ensures
            r == RoomEvent::CallAnswer(event),
    {
        RoomEvent::CallAnswer(event)
    }

    /// Wraps the record as the `CallCandidates` member, losslessly.
    pub fn from_call_candidates(event: RoomScopedEvent) -> (r: RoomEvent)
        ensures
            r == RoomEvent::CallCandidates(event),
    {
        RoomEvent::CallCandidates(event)
    }

    /// Wraps the record as the `CallHangup` member, losslessly.
    pub fn from_call_hangup(event: RoomScopedEvent) -> (r: RoomEvent)
        ensures
            r == RoomEvent::CallHangup(event),
    {
        RoomEvent::CallHangup(event)
    }

    /// Wraps the record as the `CallInvite` member, losslessly.
    pub fn from_call_invite(event: RoomScopedEvent) -> (r: RoomEvent)
        ensures
            r == RoomEvent::CallInvite(event),
    {
        RoomEvent::CallInvite(event)
    }

    /// Wraps the record as the `RoomAliases` member, losslessly.
    pub fn from_room_aliases(event: StateScopedEvent) -> (r: RoomEvent)
        ensures
            r == RoomEvent::RoomAliases(event),
    {
        RoomEvent::RoomAliases(event)
    }

    /// Wraps the record as the `RoomAvatar` member, losslessly.
    pub fn from_room_avatar(event: StateScopedEvent) -> (r: RoomEvent)
        ensures
            r == RoomEvent::RoomAvatar(event),
    {
        RoomEvent::RoomAvatar(event)
    }

    /// Wraps the record as the `RoomCanonicalAlias` member, losslessly.
    pub fn from_room_canonical_alias(event: StateScopedEvent) -> (r: RoomEvent)
        ensures
            r == RoomEvent::RoomCanonicalAlias(event),
    {
        RoomEvent::RoomCanonicalAlias(event)
    }

    /// Wraps the record as the `RoomCreate` member, losslessly.
    pub fn from_room_create(event: StateScopedEvent) -> (r: RoomEvent)
        ensures
            r == RoomEvent::RoomCreate(event),
    {
        RoomEvent::RoomCreate(event)
    }

    /// Wraps the record as the `RoomGuestAccess` member, losslessly.
    pub fn from_room_guest_access(event: StateScopedEvent) -> (r: RoomEvent)
        ensures
            r == RoomEvent::RoomGuestAccess(event),
    {
        RoomEvent::RoomGuestAccess(event)
    }

    /// Wraps the record as the `RoomHistoryVisibility` member, losslessly.
    pub fn from_room_history_visibility(event: StateScopedEvent) -> (r: RoomEvent)
        ensures
            r == RoomEvent::RoomHistoryVisibility(event),
    {
        RoomEvent::RoomHistoryVisibility(event)
    }

    /// Wraps the record as the `RoomJoinRules` member, losslessly.
    pub fn from_room_join_rules(event: StateScopedEvent) -> (r: RoomEvent)
        ensures
            r == RoomEvent::RoomJoinRules(event),
    {
        RoomEvent::RoomJoinRules(event)
    }

    /// Wraps the record as the `RoomMember` member, losslessly.
    pub fn from_room_member(event: StateScopedEvent) -> (r: RoomEvent)
        ensures
            r == RoomEvent::RoomMember(event),
    {
        RoomEvent::RoomMember(event)
    }

    /// Wraps the record as the `RoomMessage` member, losslessly.
    pub fn from_room_message(event: RoomScopedEvent) -> (r: RoomEvent)
        ensures
            r == RoomEvent::RoomMessage(event),
    {
        RoomEvent::RoomMessage(event)
    }

    /// Wraps the record as the `RoomName` member, losslessly.
    pub fn from_room_name(event: StateScopedEvent) -> (r: RoomEvent)
        ensures
            r == RoomEvent::RoomName(event),
    {
        RoomEvent::RoomName(event)
    }

    /// Wraps the record as the `RoomPowerLevels` member, losslessly.
    pub fn from_room_power_levels(event: StateScopedEvent) -> (r: RoomEvent)
        ensures
            r == RoomEvent::RoomPowerLevels(event),
    {
        RoomEvent::RoomPowerLevels(event)
    }

    /// Wraps the record as the `RoomRedaction` member, losslessly.
    pub fn from_room_redaction(event: RoomScopedEvent) -> (r: RoomEvent)
        ensures
            r == RoomEvent::RoomRedaction(event),
    {
        RoomEvent::RoomRedaction(event)
    }

    /// Wraps the record as the `RoomThirdPartyInvite` member, losslessly.
    pub fn from_room_third_party_invite(event: StateScopedEvent) -> (r: RoomEvent)
        ensures
            r == RoomEvent::RoomThirdPartyInvite(event),
    {
        RoomEvent::RoomThirdPartyInvite(event)
    }

    /// Wraps the record as the `RoomTopic` member, losslessly.
    pub fn from_room_topic(event: StateScopedEvent) -> (r: RoomEvent)
        ensures
            r == RoomEvent::RoomTopic(event),
    {
        RoomEvent::RoomTopic(event)
    }

    /// Wraps the record as the `CustomRoom` member, losslessly.
    pub fn from_custom_room(event: CustomRoomEvent) -> (r: RoomEvent)
        ensures
            r == RoomEvent::CustomRoom(event),
    {
        RoomEvent::CustomRoom(event)
    }

    /// Wraps the record as the `CustomState` member, losslessly.
    pub fn from_custom_state(event: CustomStateEvent) -> (r: RoomEvent)
        ensures
            r == RoomEvent::CustomState(event),
    {
        RoomEvent::CustomState(event)
    }
}

impl StateEvent {
    /// Wraps the record as the `RoomAliases` member, losslessly.
    pub fn from_room_aliases(event: StateScopedEvent) -> (r: StateEvent)
        ensures
            r == StateEvent::RoomAliases(event),
    {
        StateEvent::RoomAliases(event)
    }

    /// Wraps the record as the `RoomAvatar` member, losslessly.
    pub fn from_room_avatar(event: StateScopedEvent) -> (r: StateEvent)
        ensures
            r == StateEvent::RoomAvatar(event),
    {
        StateEvent::RoomAvatar(event)
    }

    /// Wraps the record as the `RoomCanonicalAlias` member, losslessly.
    pub fn from_room_canonical_alias(event: StateScopedEvent) -> (r: StateEvent)
        ensures
            r == StateEvent::RoomCanonicalAlias(event),
    {
        StateEvent::RoomCanonicalAlias(event)
    }

    /// Wraps the record as the `RoomCreate` member, losslessly.
    pub fn from_room_create(event: StateScopedEvent) -> (r: StateEvent)
        ensures
            r == StateEvent::RoomCreate(event),
    {
        StateEvent::RoomCreate(event)
    }

    /// Wraps the record as the `RoomGuestAccess` member, losslessly.
    pub fn from_room_guest_access(event: StateScopedEvent) -> (r: StateEvent)
        ensures
            r == StateEvent::RoomGuestAccess(event),
    {
        StateEvent::RoomGuestAccess(event)
    }

    /// Wraps the record as the `RoomHistoryVisibility` member, losslessly.
    pub fn from_room_history_visibility(event: StateScopedEvent) -> (r: StateEvent)
        ensures
            r == StateEvent::RoomHistoryVisibility(event),
    {
        StateEvent::RoomHistoryVisibility(event)
    }

    /// Wraps the record as the `RoomJoinRules` member, losslessly.
    pub fn from_room_join_rules(event: StateScopedEvent) -> (r: StateEvent)
        ensures
            r == StateEvent::RoomJoinRules(event),
    {
        StateEvent::RoomJoinRules(event)
    }

    /// Wraps the record as the `RoomMember` member, losslessly.
    pub fn from_room_member(event: StateScopedEvent) -> (r: StateEvent)
        ensures
            r == StateEvent::RoomMember(event),
    {
        StateEvent::RoomMember(event)
    }

    /// Wraps the record as the `RoomName` member, losslessly.
    pub fn from_room_name(event: StateScopedEvent) -> (r: StateEvent)
        ensures
            r == StateEvent::RoomName(event),
    {
        StateEvent::RoomName(event)
    }

    /// Wraps the record as the `RoomPowerLevels` member, losslessly.
    pub fn from_room_power_levels(event: StateScopedEvent) -> (r: StateEvent)
        ensures
            r == StateEvent::RoomPowerLevels(event),
    {
        StateEvent::RoomPowerLevels(event)
    }

    /// Wraps the record as the `RoomThirdPartyInvite` member, losslessly.
    pub fn from_room_third_party_invite(event: StateScopedEvent) -> (r: StateEvent)
        ensures
            r == StateEvent::RoomThirdPartyInvite(event),
    {
        StateEvent::RoomThirdPartyInvite(event)
    }

    /// Wraps the record as the `RoomTopic` member, losslessly.
    pub fn from_room_topic(event: StateScopedEvent) -> (r: StateEvent)
        ensures
            r == StateEvent::RoomTopic(event),
    {
        StateEvent::RoomTopic(event)
    }

    /// Wraps the record as the `CustomState` member, losslessly.
    pub fn from_custom_state(event: CustomStateEvent) -> (r: StateEvent)
        ensures
            r == StateEvent::CustomState(event),
    {
        StateEvent::CustomState(event)
    }
}


} // verus!
