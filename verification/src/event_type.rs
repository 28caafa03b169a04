//! The event discriminator: an open enumeration of the known tag strings,
//! with a fallback member that carries any unrecognized tag verbatim.

use vstd::prelude::*;

use crate::json::str_eq;

verus! {

/// The discriminator parsed from an event's `"type"` field. Every known tag
/// string maps to one payload-free member; any other string is kept verbatim
/// in `Custom`.
#[derive(Clone, Debug, PartialEq)]
pub enum EventType {
    /// m.call.answer
    CallAnswer,
    /// m.call.candidates
    CallCandidates,
    /// m.call.hangup
    CallHangup,
    /// m.call.invite
    CallInvite,
    /// m.presence
    Presence,
    /// m.receipt
    Receipt,
    /// m.room.aliases
    RoomAliases,
    /// m.room.avatar
    RoomAvatar,
    /// m.room.canonical_alias
    RoomCanonicalAlias,
    /// m.room.create
    RoomCreate,
    /// m.room.guest_access
    RoomGuestAccess,
    /// m.room.history_visibility
    RoomHistoryVisibility,
    /// m.room.join_rules
    RoomJoinRules,
    /// m.room.member
    RoomMember,
    /// m.room.message
    RoomMessage,
    /// m.room.name
    RoomName,
    /// m.room.power_levels
    RoomPowerLevels,
    /// m.room.redaction
    RoomRedaction,
    /// m.room.third_party_invite
    RoomThirdPartyInvite,
    /// m.room.topic
    RoomTopic,
    /// m.tag
    Tag,
    /// m.typing
    Typing,
    /// Any tag string that is not part of the catalog, kept verbatim.
    Custom(String),
}

/// The known discriminator for a tag string, or `None` for a string outside
/// the catalog. Never yields `Custom`.
pub open spec fn spec_parse_known(s: Seq<char>) -> Option<EventType> {
    if s == "m.call.answer"@ {
        Some(EventType::CallAnswer)
    } else if s == "m.call.candidates"@ {
        Some(EventType::CallCandidates)
    } else if s == "m.call.hangup"@ {
        Some(EventType::CallHangup)
    } else if s == "m.call.invite"@ {
        Some(EventType::CallInvite)
    } else if s == "m.presence"@ {
        Some(EventType::Presence)
    } else if s == "m.receipt"@ {
        Some(EventType::Receipt)
    } else if s == "m.room.aliases"@ {
        Some(EventType::RoomAliases)
    } else if s == "m.room.avatar"@ {
        Some(EventType::RoomAvatar)
    } else if s == "m.room.canonical_alias"@ {
        Some(EventType::RoomCanonicalAlias)
    } else if s == "m.room.create"@ {
        Some(EventType::RoomCreate)
    } else if s == "m.room.guest_access"@ {
        Some(EventType::RoomGuestAccess)
    } else if s == "m.room.history_visibility"@ {
        Some(EventType::RoomHistoryVisibility)
    } else if s == "m.room.join_rules"@ {
        Some(EventType::RoomJoinRules)
    } else if s == "m.room.member"@ {
        Some(EventType::RoomMember)
    } else if s == "m.room.message"@ {
        Some(EventType::RoomMessage)
    } else if s == "m.room.name"@ {
        Some(EventType::RoomName)
    } else if s == "m.room.power_levels"@ {
        Some(EventType::RoomPowerLevels)
    } else if s == "m.room.redaction"@ {
        Some(EventType::RoomRedaction)
    } else if s == "m.room.third_party_invite"@ {
        Some(EventType::RoomThirdPartyInvite)
    } else if s == "m.room.topic"@ {
        Some(EventType::RoomTopic)
    } else if s == "m.tag"@ {
        Some(EventType::Tag)
    } else if s == "m.typing"@ {
        Some(EventType::Typing)
    } else {
        None
    }
}

/// The discriminator that a whole tag string parses to: its known member,
/// or `Custom` carrying the string itself.
pub open spec fn spec_parse_type(s: String) -> EventType {
    match spec_parse_known(s@) {
        Some(t) => t,
        None => EventType::Custom(s),
    }
}

/// True when `s` is the wire tag of discriminator `t`.
pub open spec fn spec_tag(t: EventType, s: Seq<char>) -> bool {
    match t {
        EventType::CallAnswer => s == "m.call.answer"@,
        EventType::CallCandidates => s == "m.call.candidates"@,
        EventType::CallHangup => s == "m.call.hangup"@,
        EventType::CallInvite => s == "m.call.invite"@,
        EventType::Presence => s == "m.presence"@,
        EventType::Receipt => s == "m.receipt"@,
        EventType::RoomAliases => s == "m.room.aliases"@,
        EventType::RoomAvatar => s == "m.room.avatar"@,
        EventType::RoomCanonicalAlias => s == "m.room.canonical_alias"@,
        EventType::RoomCreate => s == "m.room.create"@,
        EventType::RoomGuestAccess => s == "m.room.guest_access"@,
        EventType::RoomHistoryVisibility => s == "m.room.history_visibility"@,
        EventType::RoomJoinRules => s == "m.room.join_rules"@,
        EventType::RoomMember => s == "m.room.member"@,
        EventType::RoomMessage => s == "m.room.message"@,
        EventType::RoomName => s == "m.room.name"@,
        EventType::RoomPowerLevels => s == "m.room.power_levels"@,
        EventType::RoomRedaction => s == "m.room.redaction"@,
        EventType::RoomThirdPartyInvite => s == "m.room.third_party_invite"@,
        EventType::RoomTopic => s == "m.room.topic"@,
        EventType::Tag => s == "m.tag"@,
        EventType::Typing => s == "m.typing"@,
        EventType::Custom(raw) => s == raw@,
    }
}

/// The structural shape of a known discriminator's leaf record.
#[derive(Clone, Copy, Debug, PartialEq, Eq)]
pub enum Shape {
    /// Bare content plus the discriminator.
    Basic,
    /// Room-scoped: content, discriminator, `event_id`, `room_id`, `sender`.
    RoomScoped,
    /// State: room-scoped plus `state_key`.
    StateScoped,
    /// The receipt event: typed receipt content plus `room_id`.
    Receipt,
}

/// The shape of the leaf record that each known discriminator selects.
/// `Custom` tags carry no fixed shape; they classify by field presence.
pub open spec fn spec_shape_of(t: EventType) -> Shape {
    match t {
        EventType::Presence => Shape::Basic,
        EventType::Tag => Shape::Basic,
        EventType::Typing => Shape::Basic,
        EventType::Receipt => Shape::Receipt,
        EventType::CallAnswer => Shape::RoomScoped,
        EventType::CallCandidates => Shape::RoomScoped,
        EventType::CallHangup => Shape::RoomScoped,
        EventType::CallInvite => Shape::RoomScoped,
        EventType::RoomMessage => Shape::RoomScoped,
        EventType::RoomRedaction => Shape::RoomScoped,
        EventType::RoomAliases => Shape::StateScoped,
        EventType::RoomAvatar => Shape::StateScoped,
        EventType::RoomCanonicalAlias => Shape::StateScoped,
        EventType::RoomCreate => Shape::StateScoped,
        EventType::RoomGuestAccess => Shape::StateScoped,
        EventType::RoomHistoryVisibility => Shape::StateScoped,
        EventType::RoomJoinRules => Shape::StateScoped,
        EventType::RoomMember => Shape::StateScoped,
        EventType::RoomName => Shape::StateScoped,
        EventType::RoomPowerLevels => Shape::StateScoped,
        EventType::RoomThirdPartyInvite => Shape::StateScoped,
        EventType::RoomTopic => Shape::StateScoped,
        EventType::Custom(_) => Shape::Basic,
    }
}

/// The legality table of `RoomEvent`: every known discriminator whose leaf
/// record is at least room-scoped.
pub open spec fn spec_room_allowed(t: EventType) -> bool {
    spec_shape_of(t) == Shape::RoomScoped || spec_shape_of(t) == Shape::StateScoped
}

/// The legality table of `StateEvent`: the state-shaped discriminators only.
pub open spec fn spec_state_allowed(t: EventType) -> bool {
    spec_shape_of(t) == Shape::StateScoped
}

impl EventType {
    /// The wire tag string of this discriminator; for `Custom` it is the
    /// carried string itself.
    pub fn tag_string(&self) -> (r: String)
        ensures
            spec_tag(*self, r@),
            (*self) matches EventType::Custom(raw) ==> r == raw,
    {
        match self {
            EventType::CallAnswer => "m.call.answer".to_owned(),
            EventType::CallCandidates => "m.call.candidates".to_owned(),
            EventType::CallHangup => "m.call.hangup".to_owned(),
            EventType::CallInvite => "m.call.invite".to_owned(),
            EventType::Presence => "m.presence".to_owned(),
            EventType::Receipt => "m.receipt".to_owned(),
            EventType::RoomAliases => "m.room.aliases".to_owned(),
            EventType::RoomAvatar => "m.room.avatar".to_owned(),
            EventType::RoomCanonicalAlias => "m.room.canonical_alias".to_owned(),
            EventType::RoomCreate => "m.room.create".to_owned(),
            EventType::RoomGuestAccess => "m.room.guest_access".to_owned(),
            EventType::RoomHistoryVisibility => "m.room.history_visibility".to_owned(),
            EventType::RoomJoinRules => "m.room.join_rules".to_owned(),
            EventType::RoomMember => "m.room.member".to_owned(),
            EventType::RoomMessage => "m.room.message".to_owned(),
            EventType::RoomName => "m.room.name".to_owned(),
            EventType::RoomPowerLevels => "m.room.power_levels".to_owned(),
            EventType::RoomRedaction => "m.room.redaction".to_owned(),
            EventType::RoomThirdPartyInvite => "m.room.third_party_invite".to_owned(),
            EventType::RoomTopic => "m.room.topic".to_owned(),
            EventType::Tag => "m.tag".to_owned(),
            EventType::Typing => "m.typing".to_owned(),
            EventType::Custom(raw) => raw.clone(),
        }
    }
}

/// Resolves a whole tag string into its discriminator. Never fails: a
/// string outside the catalog becomes `Custom` carrying it verbatim.
pub fn parse_event_type(s: &String) -> (t: EventType)
    ensures
        t == spec_parse_type(*s),
{
    if str_eq(s.as_str(), "m.call.answer") {
        EventType::CallAnswer
    } else if str_eq(s.as_str(), "m.call.candidates") {
        EventType::CallCandidates
    } else if str_eq(s.as_str(), "m.call.hangup") {
        EventType::CallHangup
    } else if str_eq(s.as_str(), "m.call.invite") {
        EventType::CallInvite
    } else if str_eq(s.as_str(), "m.presence") {
        EventType::Presence
    } else if str_eq(s.as_str(), "m.receipt") {
        EventType::Receipt
    } else if str_eq(s.as_str(), "m.room.aliases") {
        EventType::RoomAliases
    } else if str_eq(s.as_str(), "m.room.avatar") {
        EventType::RoomAvatar
    } else if str_eq(s.as_str(), "m.room.canonical_alias") {
        EventType::RoomCanonicalAlias
    } else if str_eq(s.as_str(), "m.room.create") {
        EventType::RoomCreate
    } else if str_eq(s.as_str(), "m.room.guest_access") {
        EventType::RoomGuestAccess
    } else if str_eq(s.as_str(), "m.room.history_visibility") {
        EventType::RoomHistoryVisibility
    } else if str_eq(s.as_str(), "m.room.join_rules") {
        EventType::RoomJoinRules
    } else if str_eq(s.as_str(), "m.room.member") {
        EventType::RoomMember
    } else if str_eq(s.as_str(), "m.room.message") {
        EventType::RoomMessage
    } else if str_eq(s.as_str(), "m.room.name") {
        EventType::RoomName
    } else if str_eq(s.as_str(), "m.room.power_levels") {
        EventType::RoomPowerLevels
    } else if str_eq(s.as_str(), "m.room.redaction") {
        EventType::RoomRedaction
    } else if str_eq(s.as_str(), "m.room.third_party_invite") {
        EventType::RoomThirdPartyInvite
    } else if str_eq(s.as_str(), "m.room.topic") {
        EventType::RoomTopic
    } else if str_eq(s.as_str(), "m.tag") {
        EventType::Tag
    } else if str_eq(s.as_str(), "m.typing") {
        EventType::Typing
    } else {
        EventType::Custom(s.clone())
    }
}

/// Parsing is the inverse of tagging: a known discriminator's own tag string
/// parses back to that discriminator.
#[verifier::rlimit(60)]
pub proof fn lemma_tag_parses_back(t: EventType, s: Seq<char>)
    requires
        spec_tag(t, s),
        !(t matches EventType::Custom(_)),
    ensures
        spec_parse_known(s) == Some(t),
{
    reveal_strlit("m.call.answer");
    reveal_strlit("m.call.candidates");
    reveal_strlit("m.call.hangup");
    reveal_strlit("m.call.invite");
    reveal_strlit("m.presence");
    reveal_strlit("m.receipt");
    reveal_strlit("m.room.aliases");
    reveal_strlit("m.room.avatar");
    reveal_strlit("m.room.canonical_alias");
    reveal_strlit("m.room.create");
    reveal_strlit("m.room.guest_access");
    reveal_strlit("m.room.history_visibility");
    reveal_strlit("m.room.join_rules");
    reveal_strlit("m.room.member");
    reveal_strlit("m.room.message");
    reveal_strlit("m.room.name");
    reveal_strlit("m.room.power_levels");
    reveal_strlit("m.room.redaction");
    reveal_strlit("m.room.third_party_invite");
    reveal_strlit("m.room.topic");
    reveal_strlit("m.tag");
    reveal_strlit("m.typing");
    assert("m.call.answer"@.len() == 13);
    assert("m.call.candidates"@.len() == 17);
    assert("m.call.hangup"@.len() == 13);
    assert("m.call.invite"@.len() == 13);
    assert("m.presence"@.len() == 10);
    assert("m.receipt"@.len() == 9);
    assert("m.room.aliases"@.len() == 14);
    assert("m.room.avatar"@.len() == 13);
    assert("m.room.canonical_alias"@.len() == 22);
    assert("m.room.create"@.len() == 13);
    assert("m.room.guest_access"@.len() == 19);
    assert("m.room.history_visibility"@.len() == 25);
    assert("m.room.join_rules"@.len() == 17);
    assert("m.room.member"@.len() == 13);
    assert("m.room.message"@.len() == 14);
    assert("m.room.name"@.len() == 11);
    assert("m.room.power_levels"@.len() == 19);
    assert("m.room.redaction"@.len() == 16);
    assert("m.room.third_party_invite"@.len() == 25);
    assert("m.room.topic"@.len() == 12);
    assert("m.tag"@.len() == 5);
    assert("m.typing"@.len() == 8);
    assert("m.call.answer"@[2] == 'c' && "m.call.answer"@[7] == 'a');
    assert("m.call.hangup"@[2] == 'c' && "m.call.hangup"@[7] == 'h');
    assert("m.call.invite"@[2] == 'c' && "m.call.invite"@[7] == 'i');
    assert("m.room.avatar"@[2] == 'r' && "m.room.avatar"@[7] == 'a');
    assert("m.room.create"@[2] == 'r' && "m.room.create"@[7] == 'c');
    assert("m.room.member"@[2] == 'r' && "m.room.member"@[7] == 'm');
    assert("m.call.candidates"@[2] == 'c' && "m.room.join_rules"@[2] == 'r');
    assert("m.room.aliases"@[7] == 'a' && "m.room.message"@[7] == 'm');
    assert("m.room.guest_access"@[7] == 'g' && "m.room.power_levels"@[7] == 'p');
    assert("m.room.history_visibility"@[7] == 'h' && "m.room.third_party_invite"@[7] == 't');
    match t {
        EventType::CallAnswer => assert(spec_parse_known(s) == Some(EventType::CallAnswer)),
        EventType::CallCandidates => assert(spec_parse_known(s) == Some(EventType::CallCandidates)),
        EventType::CallHangup => assert(spec_parse_known(s) == Some(EventType::CallHangup)),
        EventType::CallInvite => assert(spec_parse_known(s) == Some(EventType::CallInvite)),
        EventType::Presence => assert(spec_parse_known(s) == Some(EventType::Presence)),
        EventType::Receipt => assert(spec_parse_known(s) == Some(EventType::Receipt)),
        EventType::RoomAliases => assert(spec_parse_known(s) == Some(EventType::RoomAliases)),
        EventType::RoomAvatar => assert(spec_parse_known(s) == Some(EventType::RoomAvatar)),
        EventType::RoomCanonicalAlias => assert(spec_parse_known(s) == Some(
            EventType::RoomCanonicalAlias,
        )),
        EventType::RoomCreate => assert(spec_parse_known(s) == Some(EventType::RoomCreate)),
        EventType::RoomGuestAccess => assert(spec_parse_known(s) == Some(
            EventType::RoomGuestAccess,
        )),
        EventType::RoomHistoryVisibility => assert(spec_parse_known(s) == Some(
            EventType::RoomHistoryVisibility,
        )),
        EventType::RoomJoinRules => assert(spec_parse_known(s) == Some(EventType::RoomJoinRules)),
        EventType::RoomMember => assert(spec_parse_known(s) == Some(EventType::RoomMember)),
        EventType::RoomMessage => assert(spec_parse_known(s) == Some(EventType::RoomMessage)),
        EventType::RoomName => assert(spec_parse_known(s) == Some(EventType::RoomName)),
        EventType::RoomPowerLevels => assert(spec_parse_known(s) == Some(
            EventType::RoomPowerLevels,
        )),
        EventType::RoomRedaction => assert(spec_parse_known(s) == Some(EventType::RoomRedaction)),
        EventType::RoomThirdPartyInvite => assert(spec_parse_known(s) == Some(
            EventType::RoomThirdPartyInvite,
        )),
        EventType::RoomTopic => assert(spec_parse_known(s) == Some(EventType::RoomTopic)),
        EventType::Tag => assert(spec_parse_known(s) == Some(EventType::Tag)),
        EventType::Typing => assert(spec_parse_known(s) == Some(EventType::Typing)),
        EventType::Custom(_) => {},
    }
}

} // verus!
