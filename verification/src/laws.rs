//! The container layer's laws: round trips, totality over unrecognized
//! discriminators, tier exclusion, classification priority, disjointness of
//! decoding, and member agreement between the containers.

use vstd::prelude::*;

use crate::collections::Event;
use crate::collections::Member;
use crate::collections::RoomEvent;
use crate::collections::StateEvent;
use crate::collections::spec_classify_event;
use crate::collections::spec_event_decode_err;
use crate::collections::spec_event_encoding;
use crate::collections::spec_event_from;
use crate::collections::spec_event_member_of;
use crate::collections::spec_event_target;
use crate::collections::spec_room_event_decode_err;
use crate::collections::spec_room_event_encoding;
use crate::collections::spec_room_event_from;
use crate::collections::spec_room_event_member_of;
use crate::collections::spec_room_event_target;
use crate::collections::spec_state_event_decode_err;
use crate::collections::spec_state_event_encoding;
use crate::collections::spec_state_event_from;
use crate::collections::spec_state_event_member_of;
use crate::collections::spec_state_event_target;
use crate::event_type::EventType;
use crate::event_type::lemma_tag_parses_back;
use crate::event_type::spec_parse_known;
use crate::event_type::spec_room_allowed;
use crate::event_type::spec_state_allowed;
use crate::json::JsonValue;
use crate::json::spec_get;
use crate::json::spec_lookup;
use crate::json::spec_obj_fields;
use crate::receipt::Receipts;
use crate::records::DecodeError;
use crate::records::spec_type_tagged;

verus! {

/// A well-formed `Event`: each known member's record carries that member's
/// own discriminator; a custom member's discriminator is `Custom` with a
/// string outside the catalog; and a custom room member carries all of its
/// room metadata, without which `Event` decode would classify its encoding
/// as basic.
pub open spec fn spec_event_wf(e: Event) -> bool {
    match e {
        Event::CallAnswer(rec) => rec.event_type == EventType::CallAnswer,
        Event::CallCandidates(rec) => rec.event_type == EventType::CallCandidates,
        Event::CallHangup(rec) => rec.event_type == EventType::CallHangup,
        Event::CallInvite(rec) => rec.event_type == EventType::CallInvite,
        Event::Presence(rec) => rec.event_type == EventType::Presence,
        Event::Receipt(rec) => rec.event_type == EventType::Receipt,
        Event::RoomAliases(rec) => rec.event_type == EventType::RoomAliases,
        Event::RoomAvatar(rec) => rec.event_type == EventType::RoomAvatar,
        Event::RoomCanonicalAlias(rec) => rec.event_type == EventType::RoomCanonicalAlias,
        Event::RoomCreate(rec) => rec.event_type == EventType::RoomCreate,
        Event::RoomGuestAccess(rec) => rec.event_type == EventType::RoomGuestAccess,
        Event::RoomHistoryVisibility(rec) => rec.event_type == EventType::RoomHistoryVisibility,
        Event::RoomJoinRules(rec) => rec.event_type == EventType::RoomJoinRules,
        Event::RoomMember(rec) => rec.event_type == EventType::RoomMember,
        Event::RoomMessage(rec) => rec.event_type == EventType::RoomMessage,
        Event::RoomName(rec) => rec.event_type == EventType::RoomName,
        Event::RoomPowerLevels(rec) => rec.event_type == EventType::RoomPowerLevels,
        Event::RoomRedaction(rec) => rec.event_type == EventType::RoomRedaction,
        Event::RoomThirdPartyInvite(rec) => rec.event_type == EventType::RoomThirdPartyInvite,
        Event::RoomTopic(rec) => rec.event_type == EventType::RoomTopic,
        Event::Tag(rec) => rec.event_type == EventType::Tag,
        Event::Typing(rec) => rec.event_type == EventType::Typing,
        Event::Custom(rec) => rec.event_type matches EventType::Custom(raw) && spec_parse_known(
            raw@,
        ) is None,
        Event::CustomRoom(rec) => rec.event_type matches EventType::Custom(raw)
            && spec_parse_known(raw@) is None && rec.event_id is Some && rec.room_id is Some
            && rec.sender is Some,
        Event::CustomState(rec) => rec.event_type matches EventType::Custom(raw)
            && spec_parse_known(raw@) is None,
    }
}

/// A well-formed `RoomEvent`: as for `Event`, but a custom room member may
/// omit its metadata, since this container never classifies as basic.
pub open spec fn spec_room_event_wf(e: RoomEvent) -> bool {
    match e {
        RoomEvent::CallAnswer(rec) => rec.event_type == EventType::CallAnswer,
        RoomEvent::CallCandidates(rec) => rec.event_type == EventType::CallCandidates,
        RoomEvent::CallHangup(rec) => rec.event_type == EventType::CallHangup,
        RoomEvent::CallInvite(rec) => rec.event_type == EventType::CallInvite,
        RoomEvent::RoomAliases(rec) => rec.event_type == EventType::RoomAliases,
        RoomEvent::RoomAvatar(rec) => rec.event_type == EventType::RoomAvatar,
        RoomEvent::RoomCanonicalAlias(rec) => rec.event_type == EventType::RoomCanonicalAlias,
        RoomEvent::RoomCreate(rec) => rec.event_type == EventType::RoomCreate,
        RoomEvent::RoomGuestAccess(rec) => rec.event_type == EventType::RoomGuestAccess,
        RoomEvent::RoomHistoryVisibility(rec) => rec.event_type
            == EventType::RoomHistoryVisibility,
        RoomEvent::RoomJoinRules(rec) => rec.event_type == EventType::RoomJoinRules,
        RoomEvent::RoomMember(rec) => rec.event_type == EventType::RoomMember,
        RoomEvent::RoomMessage(rec) => rec.event_type == EventType::RoomMessage,
        RoomEvent::RoomName(rec) => rec.event_type == EventType::RoomName,
        RoomEvent::RoomPowerLevels(rec) => rec.event_type == EventType::RoomPowerLevels,
        RoomEvent::RoomRedaction(rec) => rec.event_type == EventType::RoomRedaction,
        RoomEvent::RoomThirdPartyInvite(rec) => rec.event_type
            == EventType::RoomThirdPartyInvite,
        RoomEvent::RoomTopic(rec) => rec.event_type == EventType::RoomTopic,
        RoomEvent::CustomRoom(rec) => rec.event_type matches EventType::Custom(raw)
            && spec_parse_known(raw@) is None,
        RoomEvent::CustomState(rec) => rec.event_type matches EventType::Custom(raw)
            && spec_parse_known(raw@) is None,
    }
}

/// A well-formed `StateEvent`.
pub open spec fn spec_state_event_wf(e: StateEvent) -> bool {
    match e {
        StateEvent::RoomAliases(rec) => rec.event_type == EventType::RoomAliases,
        StateEvent::RoomAvatar(rec) => rec.event_type == EventType::RoomAvatar,
        StateEvent::RoomCanonicalAlias(rec) => rec.event_type == EventType::RoomCanonicalAlias,
        StateEvent::RoomCreate(rec) => rec.event_type == EventType::RoomCreate,
        StateEvent::RoomGuestAccess(rec) => rec.event_type == EventType::RoomGuestAccess,
        StateEvent::RoomHistoryVisibility(rec) => rec.event_type
            == EventType::RoomHistoryVisibility,
        StateEvent::RoomJoinRules(rec) => rec.event_type == EventType::RoomJoinRules,
        StateEvent::RoomMember(rec) => rec.event_type == EventType::RoomMember,
        StateEvent::RoomName(rec) => rec.event_type == EventType::RoomName,
        StateEvent::RoomPowerLevels(rec) => rec.event_type == EventType::RoomPowerLevels,
        StateEvent::RoomThirdPartyInvite(rec) => rec.event_type
            == EventType::RoomThirdPartyInvite,
        StateEvent::RoomTopic(rec) => rec.event_type == EventType::RoomTopic,
        StateEvent::CustomState(rec) => rec.event_type matches EventType::Custom(raw)
            && spec_parse_known(raw@) is None,
    }
}

/// From a tagged `"type"` binding for a known discriminator, the parsed
/// discriminator is that one.
proof fn lemma_type_tagged_parses(fields: Seq<(String, JsonValue)>, t: EventType)
    requires
        spec_type_tagged(fields, t),
        !(t matches EventType::Custom(_)),
    ensures
        spec_lookup(fields, "type"@) matches Some(JsonValue::Str(s)) && spec_parse_known(s@)
            == Some(t),
{
    let s = choose|s: String| spec_lookup(fields, "type"@) == Some(JsonValue::Str(s));
    assert(spec_lookup(fields, "type"@) == Some(JsonValue::Str(s)));
    lemma_tag_parses_back(t, s@);
}

/// Round trip: a well-formed `Event` re-decodes from its own encoding, to
/// itself: decode cannot fail on it, and by disjointness any value that
/// decode returns agrees with `e`.
#[verifier::rlimit(100)]
pub proof fn lemma_event_round_trip(e: Event, v: JsonValue)
    requires
        spec_event_wf(e),
        spec_event_encoding(e, v),
    ensures
        spec_event_decode_err(v) is None,
        spec_event_from(v, e),
{
    let fields = spec_obj_fields(v);
    match e {
        Event::CallAnswer(_) => lemma_type_tagged_parses(fields, EventType::CallAnswer),
        Event::CallCandidates(_) => lemma_type_tagged_parses(fields, EventType::CallCandidates),
        Event::CallHangup(_) => lemma_type_tagged_parses(fields, EventType::CallHangup),
        Event::CallInvite(_) => lemma_type_tagged_parses(fields, EventType::CallInvite),
        Event::Presence(_) => lemma_type_tagged_parses(fields, EventType::Presence),
        Event::Receipt(_) => lemma_type_tagged_parses(fields, EventType::Receipt),
        Event::RoomAliases(_) => lemma_type_tagged_parses(fields, EventType::RoomAliases),
        Event::RoomAvatar(_) => lemma_type_tagged_parses(fields, EventType::RoomAvatar),
        Event::RoomCanonicalAlias(_) => lemma_type_tagged_parses(
            fields,
            EventType::RoomCanonicalAlias,
        ),
        Event::RoomCreate(_) => lemma_type_tagged_parses(fields, EventType::RoomCreate),
        Event::RoomGuestAccess(_) => lemma_type_tagged_parses(fields, EventType::RoomGuestAccess),
        Event::RoomHistoryVisibility(_) => lemma_type_tagged_parses(
            fields,
            EventType::RoomHistoryVisibility,
        ),
        Event::RoomJoinRules(_) => lemma_type_tagged_parses(fields, EventType::RoomJoinRules),
        Event::RoomMember(_) => lemma_type_tagged_parses(fields, EventType::RoomMember),
        Event::RoomMessage(_) => lemma_type_tagged_parses(fields, EventType::RoomMessage),
        Event::RoomName(_) => lemma_type_tagged_parses(fields, EventType::RoomName),
        Event::RoomPowerLevels(_) => lemma_type_tagged_parses(fields, EventType::RoomPowerLevels),
        Event::RoomRedaction(_) => lemma_type_tagged_parses(fields, EventType::RoomRedaction),
        Event::RoomThirdPartyInvite(_) => lemma_type_tagged_parses(
            fields,
            EventType::RoomThirdPartyInvite,
        ),
        Event::RoomTopic(_) => lemma_type_tagged_parses(fields, EventType::RoomTopic),
        Event::Tag(_) => lemma_type_tagged_parses(fields, EventType::Tag),
        Event::Typing(_) => lemma_type_tagged_parses(fields, EventType::Typing),
        Event::Custom(_) => {},
        Event::CustomRoom(_) => {},
        Event::CustomState(_) => {},
    }
}

/// Round trip: a well-formed `RoomEvent` re-decodes from its own encoding,
/// to itself: decode cannot fail on it, and by disjointness any value that
/// decode returns is `e`.
#[verifier::rlimit(100)]
pub proof fn lemma_room_event_round_trip(e: RoomEvent, v: JsonValue)
    requires
        spec_room_event_wf(e),
        spec_room_event_encoding(e, v),
    ensures
        spec_room_event_decode_err(v) is None,
        spec_room_event_from(v, e),
{
    let fields = spec_obj_fields(v);
    match e {
        RoomEvent::CallAnswer(_) => lemma_type_tagged_parses(fields, EventType::CallAnswer),
        RoomEvent::CallCandidates(_) => lemma_type_tagged_parses(
            fields,
            EventType::CallCandidates,
        ),
        RoomEvent::CallHangup(_) => lemma_type_tagged_parses(fields, EventType::CallHangup),
        RoomEvent::CallInvite(_) => lemma_type_tagged_parses(fields, EventType::CallInvite),
        RoomEvent::RoomAliases(_) => lemma_type_tagged_parses(fields, EventType::RoomAliases),
        RoomEvent::RoomAvatar(_) => lemma_type_tagged_parses(fields, EventType::RoomAvatar),
        RoomEvent::RoomCanonicalAlias(_) => lemma_type_tagged_parses(
            fields,
            EventType::RoomCanonicalAlias,
        ),
        RoomEvent::RoomCreate(_) => lemma_type_tagged_parses(fields, EventType::RoomCreate),
        RoomEvent::RoomGuestAccess(_) => lemma_type_tagged_parses(
            fields,
            EventType::RoomGuestAccess,
        ),
        RoomEvent::RoomHistoryVisibility(_) => lemma_type_tagged_parses(
            fields,
            EventType::RoomHistoryVisibility,
        ),
        RoomEvent::RoomJoinRules(_) => lemma_type_tagged_parses(fields, EventType::RoomJoinRules),
        RoomEvent::RoomMember(_) => lemma_type_tagged_parses(fields, EventType::RoomMember),
        RoomEvent::RoomMessage(_) => lemma_type_tagged_parses(fields, EventType::RoomMessage),
        RoomEvent::RoomName(_) => lemma_type_tagged_parses(fields, EventType::RoomName),
        RoomEvent::RoomPowerLevels(_) => lemma_type_tagged_parses(
            fields,
            EventType::RoomPowerLevels,
        ),
        RoomEvent::RoomRedaction(_) => lemma_type_tagged_parses(fields, EventType::RoomRedaction),
        RoomEvent::RoomThirdPartyInvite(_) => lemma_type_tagged_parses(
            fields,
            EventType::RoomThirdPartyInvite,
        ),
        RoomEvent::RoomTopic(_) => lemma_type_tagged_parses(fields, EventType::RoomTopic),
        RoomEvent::CustomRoom(_) => {},
        RoomEvent::CustomState(_) => {},
    }
}

/// Round trip: a well-formed `StateEvent` re-decodes from its own encoding,
/// to itself: decode cannot fail on it, and by disjointness any value that
/// decode returns is `e`.
#[verifier::rlimit(100)]
pub proof fn lemma_state_event_round_trip(e: StateEvent, v: JsonValue)
    requires
        spec_state_event_wf(e),
        spec_state_event_encoding(e, v),
    ensures
        spec_state_event_decode_err(v) is None,
        spec_state_event_from(v, e),
{
    let fields = spec_obj_fields(v);
    match e {
        StateEvent::RoomAliases(_) => lemma_type_tagged_parses(fields, EventType::RoomAliases),
        StateEvent::RoomAvatar(_) => lemma_type_tagged_parses(fields, EventType::RoomAvatar),
        StateEvent::RoomCanonicalAlias(_) => lemma_type_tagged_parses(
            fields,
            EventType::RoomCanonicalAlias,
        ),
        StateEvent::RoomCreate(_) => lemma_type_tagged_parses(fields, EventType::RoomCreate),
        StateEvent::RoomGuestAccess(_) => lemma_type_tagged_parses(
            fields,
            EventType::RoomGuestAccess,
        ),
        StateEvent::RoomHistoryVisibility(_) => lemma_type_tagged_parses(
            fields,
            EventType::RoomHistoryVisibility,
        ),
        StateEvent::RoomJoinRules(_) => lemma_type_tagged_parses(
            fields,
            EventType::RoomJoinRules,
        ),
        StateEvent::RoomMember(_) => lemma_type_tagged_parses(fields, EventType::RoomMember),
        StateEvent::RoomName(_) => lemma_type_tagged_parses(fields, EventType::RoomName),
        StateEvent::RoomPowerLevels(_) => lemma_type_tagged_parses(
            fields,
            EventType::RoomPowerLevels,
        ),
        StateEvent::RoomThirdPartyInvite(_) => lemma_type_tagged_parses(
            fields,
            EventType::RoomThirdPartyInvite,
        ),
        StateEvent::RoomTopic(_) => lemma_type_tagged_parses(fields, EventType::RoomTopic),
        StateEvent::CustomState(_) => {},
    }
}

/// Totality: `Event` decode never fails merely because the discriminator is
/// unrecognized. With a string `"type"` outside the catalog it selects one
/// of the custom members; only that member's structural decode can still
/// fail.
pub proof fn lemma_event_unknown_total(v: JsonValue)
    requires
        spec_get(v, "type"@) matches Some(JsonValue::Str(s)) && spec_parse_known(s@) is None,
    ensures
        spec_event_target(v) == Ok::<Member, DecodeError>(spec_classify_event(v)),
        !(spec_classify_event(v) matches Member::Known(_)),
        spec_event_decode_err(v) is None || spec_event_decode_err(v) matches Some(
            DecodeError::LeafDecodeFailure(_),
        ),
{
}

/// Tier exclusion for `StateEvent`: a known discriminator outside the state
/// tier is rejected as an illegal member, whatever else the payload holds.
pub proof fn lemma_state_event_rejects_non_state(v: JsonValue, t: EventType)
    requires
        spec_get(v, "type"@) matches Some(JsonValue::Str(s)) && spec_parse_known(s@) == Some(t),
        !spec_state_allowed(t),
    ensures
        spec_state_event_decode_err(v) == Some(DecodeError::IllegalMemberForContainer),
{
}

/// Tier exclusion for `RoomEvent`: a known basic discriminator is rejected
/// as an illegal member, whatever else the payload holds.
pub proof fn lemma_room_event_rejects_basic(v: JsonValue, t: EventType)
    requires
        spec_get(v, "type"@) matches Some(JsonValue::Str(s)) && spec_parse_known(s@) == Some(t),
        !spec_room_allowed(t),
    ensures
        spec_room_event_decode_err(v) == Some(DecodeError::IllegalMemberForContainer),
{
}

/// Classification priority: under `Event` decode, an unrecognized
/// discriminator with a `state_key` present selects the custom state
/// member, even when all the room metadata is present too.
pub proof fn lemma_classification_state_key_priority(v: JsonValue)
    requires
        spec_get(v, "type"@) matches Some(JsonValue::Str(s)) && spec_parse_known(s@) is None,
        spec_get(v, "state_key"@) is Some,
    ensures
        spec_event_target(v) == Ok::<Member, DecodeError>(Member::CustomState),
        forall|e: Event| spec_event_from(v, e) ==> #[trigger] spec_event_member_of(e)
            == Member::CustomState,
{
}

/// Two receipt contents with the same bindings, compared through views.
pub open spec fn spec_receipt_content_eq(
    a: Seq<(String, Receipts)>,
    b: Seq<(String, Receipts)>,
) -> bool {
    &&& a.len() == b.len()
    &&& forall|i: int|
        #![all_triggers]
        0 <= i < a.len() ==> a[i].0 == b[i].0 && a[i].1.m_read@ == b[i].1.m_read@
}

/// Two `Event` values that agree as decodings: equal outright, except that
/// two receipt members are compared through the views of their content.
pub open spec fn spec_same_event(e1: Event, e2: Event) -> bool {
    match (e1, e2) {
        (Event::Receipt(a), Event::Receipt(b)) => a.event_type == b.event_type && a.room_id
            == b.room_id && spec_receipt_content_eq(a.content@, b.content@),
        _ => e1 == e2,
    }
}

/// Disjointness: one input never decodes to two different `Event` members,
/// and the decoded payloads agree.
#[verifier::rlimit(100)]
pub proof fn lemma_event_decode_disjoint(v: JsonValue, e1: Event, e2: Event)
    requires
        spec_event_from(v, e1),
        spec_event_from(v, e2),
    ensures
        spec_event_member_of(e1) == spec_event_member_of(e2),
        spec_same_event(e1, e2),
{
    match (e1, e2) {
        (Event::Receipt(a), Event::Receipt(b)) => {
            assert forall|i: int| 0 <= i < a.content@.len() implies a.content@[i].0
                == b.content@[i].0 && a.content@[i].1.m_read@ == b.content@[i].1.m_read@ by {
                assert(a.content@[i].1.m_read@ =~= b.content@[i].1.m_read@);
            }
        },
        _ => {},
    }
}

/// Disjointness for `RoomEvent`: one input never decodes to two different
/// values.
#[verifier::rlimit(100)]
pub proof fn lemma_room_event_decode_disjoint(v: JsonValue, e1: RoomEvent, e2: RoomEvent)
    requires
        spec_room_event_from(v, e1),
        spec_room_event_from(v, e2),
    ensures
        spec_room_event_member_of(e1) == spec_room_event_member_of(e2),
        e1 == e2,
{
}

/// Disjointness for `StateEvent`: one input never decodes to two different
/// values.
#[verifier::rlimit(100)]
pub proof fn lemma_state_event_decode_disjoint(v: JsonValue, e1: StateEvent, e2: StateEvent)
    requires
        spec_state_event_from(v, e1),
        spec_state_event_from(v, e2),
    ensures
        spec_state_event_member_of(e1) == spec_state_event_member_of(e2),
        e1 == e2,
{
}

/// Member agreement: an input that `StateEvent` decode accepts selects the
/// same member under all three containers. The containers disagree only on
/// which discriminators are legal, never on the classification of a legal
/// one.
pub proof fn lemma_state_member_agreement(v: JsonValue)
    requires
        spec_state_event_decode_err(v) is None,
    ensures
        spec_room_event_target(v) == spec_state_event_target(v),
        spec_event_target(v) == spec_state_event_target(v),
{
}

} // verus!
