use ruma_events::collections::{Event, RoomEvent, StateEvent};
use ruma_events::event_type::EventType;
use ruma_events::json::JsonValue;
use ruma_events::records::{
    BasicEvent, CustomEvent, CustomRoomEvent, CustomStateEvent, DecodeError, FieldFault, FieldId,
    RoomScopedEvent, StateScopedEvent,
};

fn s(x: &str) -> JsonValue {
    JsonValue::Str(x.to_string())
}

fn obj(fields: Vec<(&str, JsonValue)>) -> JsonValue {
    JsonValue::Obj(fields.into_iter().map(|(k, v)| (k.to_string(), v)).collect())
}

fn topic_payload(with_state_key: bool) -> JsonValue {
    let mut fields = vec![
        ("type", s("m.room.topic")),
        ("content", obj(vec![("topic", s("hi"))])),
        ("event_id", s("$1")),
        ("room_id", s("!r")),
        ("sender", s("@a")),
    ];
    if with_state_key {
        fields.push(("state_key", s("")));
    }
    obj(fields)
}

#[test]
fn scenario_topic_as_state_event() {
    let decoded = StateEvent::deserialize(topic_payload(true)).unwrap();
    match decoded {
        StateEvent::RoomTopic(rec) => {
            assert_eq!(rec.event_type, EventType::RoomTopic);
            assert_eq!(rec.content, obj(vec![("topic", s("hi"))]));
            assert_eq!(rec.event_id, "$1");
            assert_eq!(rec.room_id, "!r");
            assert_eq!(rec.sender, "@a");
            assert_eq!(rec.state_key, "");
        }
        other => panic!("wrong member: {:?}", other),
    }
}

#[test]
fn scenario_topic_without_state_key_fails() {
    let r = Event::deserialize(topic_payload(false));
    assert_eq!(
        r,
        Err(DecodeError::LeafDecodeFailure(FieldFault::Missing(FieldId::StateKey)))
    );
    let r = StateEvent::deserialize(topic_payload(false));
    assert_eq!(
        r,
        Err(DecodeError::LeafDecodeFailure(FieldFault::Missing(FieldId::StateKey)))
    );
}

fn unknown_state_payload() -> JsonValue {
    obj(vec![
        ("type", s("m.unknown.foo")),
        ("content", obj(vec![])),
        ("state_key", s("")),
    ])
}

#[test]
fn scenario_unknown_with_state_key() {
    match Event::deserialize(unknown_state_payload()).unwrap() {
        Event::CustomState(rec) => {
            assert_eq!(rec.event_type, EventType::Custom("m.unknown.foo".to_string()));
            assert_eq!(rec.state_key, "");
            assert_eq!(rec.event_id, None);
        }
        other => panic!("wrong member: {:?}", other),
    }
    assert!(matches!(
        RoomEvent::deserialize(unknown_state_payload()).unwrap(),
        RoomEvent::CustomState(_)
    ));
    assert!(matches!(
        StateEvent::deserialize(unknown_state_payload()).unwrap(),
        StateEvent::CustomState(_)
    ));
}

fn unknown_bare_payload() -> JsonValue {
    obj(vec![("type", s("m.unknown.bar")), ("content", obj(vec![]))])
}

#[test]
fn scenario_unknown_without_metadata() {
    // Under `Event` the payload is the basic fallback; under `RoomEvent`,
    // which has no basic fallback, it is the room fallback even though the
    // room metadata is absent.
    match Event::deserialize(unknown_bare_payload()).unwrap() {
        Event::Custom(rec) => {
            assert_eq!(rec.event_type, EventType::Custom("m.unknown.bar".to_string()));
        }
        other => panic!("wrong member: {:?}", other),
    }
    match RoomEvent::deserialize(unknown_bare_payload()).unwrap() {
        RoomEvent::CustomRoom(rec) => {
            assert_eq!(rec.event_id, None);
            assert_eq!(rec.room_id, None);
            assert_eq!(rec.sender, None);
        }
        other => panic!("wrong member: {:?}", other),
    }
}

#[test]
fn classification_priority_state_key_wins() {
    let payload = obj(vec![
        ("type", s("m.unknown.baz")),
        ("content", obj(vec![])),
        ("state_key", s("k")),
        ("event_id", s("$1")),
        ("room_id", s("!r")),
        ("sender", s("@a")),
    ]);
    match Event::deserialize(payload).unwrap() {
        Event::CustomState(rec) => {
            assert_eq!(rec.state_key, "k");
            assert_eq!(rec.event_id, Some("$1".to_string()));
            assert_eq!(rec.room_id, Some("!r".to_string()));
            assert_eq!(rec.sender, Some("@a".to_string()));
        }
        other => panic!("wrong member: {:?}", other),
    }
}

#[test]
fn tier_exclusion_state_event() {
    let message = obj(vec![
        ("type", s("m.room.message")),
        ("content", obj(vec![("body", s("x"))])),
        ("event_id", s("$1")),
        ("room_id", s("!r")),
        ("sender", s("@a")),
    ]);
    assert_eq!(
        StateEvent::deserialize(message),
        Err(DecodeError::IllegalMemberForContainer)
    );
    let redaction = obj(vec![
        ("type", s("m.room.redaction")),
        ("content", obj(vec![])),
    ]);
    assert_eq!(
        StateEvent::deserialize(redaction),
        Err(DecodeError::IllegalMemberForContainer)
    );
}

#[test]
fn tier_exclusion_room_event() {
    let presence = obj(vec![("type", s("m.presence")), ("content", obj(vec![]))]);
    assert_eq!(
        RoomEvent::deserialize(presence),
        Err(DecodeError::IllegalMemberForContainer)
    );
    let receipt = obj(vec![("type", s("m.receipt")), ("content", obj(vec![]))]);
    assert_eq!(
        RoomEvent::deserialize(receipt),
        Err(DecodeError::IllegalMemberForContainer)
    );
    let typing = obj(vec![("type", s("m.typing")), ("content", obj(vec![]))]);
    assert_eq!(
        RoomEvent::deserialize(typing),
        Err(DecodeError::IllegalMemberForContainer)
    );
}

#[test]
fn missing_discriminator() {
    let r = Event::deserialize(obj(vec![("content", obj(vec![]))]));
    assert_eq!(r, Err(DecodeError::MissingDiscriminator));
    let r = Event::deserialize(JsonValue::Null);
    assert_eq!(r, Err(DecodeError::MissingDiscriminator));
}

#[test]
fn malformed_discriminator() {
    let r = Event::deserialize(obj(vec![("type", JsonValue::Num(5))]));
    assert_eq!(r, Err(DecodeError::MalformedDiscriminator));
    let r = StateEvent::deserialize(obj(vec![("type", JsonValue::Bool(true))]));
    assert_eq!(r, Err(DecodeError::MalformedDiscriminator));
}

#[test]
fn leaf_failure_missing_and_invalid_fields() {
    let no_event_id = obj(vec![
        ("type", s("m.call.answer")),
        ("content", obj(vec![])),
        ("room_id", s("!r")),
        ("sender", s("@a")),
    ]);
    assert_eq!(
        Event::deserialize(no_event_id),
        Err(DecodeError::LeafDecodeFailure(FieldFault::Missing(FieldId::EventId)))
    );
    let bad_sender = obj(vec![
        ("type", s("m.call.answer")),
        ("content", obj(vec![])),
        ("event_id", s("$1")),
        ("room_id", s("!r")),
        ("sender", JsonValue::Num(7)),
    ]);
    assert_eq!(
        Event::deserialize(bad_sender),
        Err(DecodeError::LeafDecodeFailure(FieldFault::Invalid(FieldId::Sender)))
    );
    let no_content = obj(vec![("type", s("m.presence"))]);
    assert_eq!(
        Event::deserialize(no_content),
        Err(DecodeError::LeafDecodeFailure(FieldFault::Missing(FieldId::Content)))
    );
}

#[test]
fn duplicate_keys_first_binding_wins() {
    let payload = JsonValue::Obj(vec![
        ("type".to_string(), s("m.presence")),
        ("content".to_string(), s("first")),
        ("content".to_string(), s("second")),
    ]);
    match Event::deserialize(payload).unwrap() {
        Event::Presence(rec) => assert_eq!(rec.content, s("first")),
        other => panic!("wrong member: {:?}", other),
    }
}

#[test]
fn round_trip_room_scoped() {
    let rec = RoomScopedEvent {
        content: obj(vec![("body", s("hello"))]),
        event_type: EventType::CallAnswer,
        event_id: "$1".to_string(),
        room_id: "!r".to_string(),
        sender: "@a".to_string(),
    };
    let encoded = Event::CallAnswer(rec).serialize();
    match Event::deserialize(encoded).unwrap() {
        Event::CallAnswer(back) => {
            assert_eq!(back.content, obj(vec![("body", s("hello"))]));
            assert_eq!(back.event_id, "$1");
            assert_eq!(back.room_id, "!r");
            assert_eq!(back.sender, "@a");
            assert_eq!(back.event_type, EventType::CallAnswer);
        }
        other => panic!("wrong member: {:?}", other),
    }
}

#[test]
fn round_trip_basic() {
    let rec = BasicEvent {
        content: obj(vec![("presence", s("online"))]),
        event_type: EventType::Presence,
    };
    let encoded = Event::Presence(rec).serialize();
    match Event::deserialize(encoded).unwrap() {
        Event::Presence(back) => {
            assert_eq!(back.content, obj(vec![("presence", s("online"))]));
            assert_eq!(back.event_type, EventType::Presence);
        }
        other => panic!("wrong member: {:?}", other),
    }
}

#[test]
fn round_trip_state_scoped() {
    let rec = StateScopedEvent {
        content: obj(vec![("name", s("the room"))]),
        event_type: EventType::RoomName,
        event_id: "$2".to_string(),
        room_id: "!r".to_string(),
        sender: "@b".to_string(),
        state_key: "".to_string(),
    };
    let expected = StateEvent::RoomName(StateScopedEvent {
        content: obj(vec![("name", s("the room"))]),
        event_type: EventType::RoomName,
        event_id: "$2".to_string(),
        room_id: "!r".to_string(),
        sender: "@b".to_string(),
        state_key: "".to_string(),
    });
    let encoded = StateEvent::RoomName(rec).serialize();
    assert_eq!(StateEvent::deserialize(encoded).unwrap(), expected);
}

#[test]
fn round_trip_custom_members() {
    let basic = CustomEvent {
        content: obj(vec![("x", JsonValue::Num(1))]),
        event_type: EventType::Custom("m.unknown.basic".to_string()),
    };
    let encoded = Event::Custom(basic).serialize();
    match Event::deserialize(encoded).unwrap() {
        Event::Custom(back) => {
            assert_eq!(back.event_type, EventType::Custom("m.unknown.basic".to_string()));
            assert_eq!(back.content, obj(vec![("x", JsonValue::Num(1))]));
        }
        other => panic!("wrong member: {:?}", other),
    }

    let room = CustomRoomEvent {
        content: obj(vec![]),
        event_type: EventType::Custom("m.unknown.room".to_string()),
        event_id: Some("$1".to_string()),
        room_id: Some("!r".to_string()),
        sender: Some("@a".to_string()),
    };
    let encoded = RoomEvent::CustomRoom(room).serialize();
    match RoomEvent::deserialize(encoded).unwrap() {
        RoomEvent::CustomRoom(back) => {
            assert_eq!(back.event_id, Some("$1".to_string()));
            assert_eq!(back.sender, Some("@a".to_string()));
        }
        other => panic!("wrong member: {:?}", other),
    }

    let state = CustomStateEvent {
        content: obj(vec![]),
        event_type: EventType::Custom("m.unknown.state".to_string()),
        event_id: None,
        room_id: None,
        sender: None,
        state_key: "k".to_string(),
    };
    let encoded = StateEvent::CustomState(state).serialize();
    match StateEvent::deserialize(encoded).unwrap() {
        StateEvent::CustomState(back) => {
            assert_eq!(back.state_key, "k");
            assert_eq!(back.event_id, None);
        }
        other => panic!("wrong member: {:?}", other),
    }
}

#[test]
fn state_decode_agrees_with_wider_containers() {
    // A payload accepted as a state event selects the same member under
    // the two wider containers.
    let encoded = topic_payload(true);
    assert!(matches!(
        StateEvent::deserialize(encoded).unwrap(),
        StateEvent::RoomTopic(_)
    ));
    assert!(matches!(
        RoomEvent::deserialize(topic_payload(true)).unwrap(),
        RoomEvent::RoomTopic(_)
    ));
    assert!(matches!(
        Event::deserialize(topic_payload(true)).unwrap(),
        Event::RoomTopic(_)
    ));
}

#[test]
fn encode_emits_exact_structure() {
    let rec = BasicEvent {
        content: JsonValue::Null,
        event_type: EventType::Presence,
    };
    let encoded = Event::Presence(rec).serialize();
    assert_eq!(
        encoded,
        obj(vec![("content", JsonValue::Null), ("type", s("m.presence"))])
    );

    let rec = StateScopedEvent {
        content: obj(vec![("topic", s("hi"))]),
        event_type: EventType::RoomTopic,
        event_id: "$1".to_string(),
        room_id: "!r".to_string(),
        sender: "@a".to_string(),
        state_key: "".to_string(),
    };
    let encoded = StateEvent::RoomTopic(rec).serialize();
    assert_eq!(
        encoded,
        obj(vec![
            ("content", obj(vec![("topic", s("hi"))])),
            ("type", s("m.room.topic")),
            ("event_id", s("$1")),
            ("room_id", s("!r")),
            ("sender", s("@a")),
            ("state_key", s("")),
        ])
    );

    let rec = CustomRoomEvent {
        content: obj(vec![]),
        event_type: EventType::Custom("m.unknown.partial".to_string()),
        event_id: None,
        room_id: Some("!r".to_string()),
        sender: None,
    };
    let encoded = RoomEvent::CustomRoom(rec).serialize();
    assert_eq!(
        encoded,
        obj(vec![
            ("content", obj(vec![])),
            ("type", s("m.unknown.partial")),
            ("room_id", s("!r")),
        ])
    );
}

#[test]
fn conversion_layer_wraps_losslessly() {
    let rec = BasicEvent {
        content: obj(vec![]),
        event_type: EventType::Typing,
    };
    assert!(matches!(Event::from_typing(rec), Event::Typing(_)));
    let rec = RoomScopedEvent {
        content: obj(vec![]),
        event_type: EventType::RoomMessage,
        event_id: "$1".to_string(),
        room_id: "!r".to_string(),
        sender: "@a".to_string(),
    };
    assert!(matches!(RoomEvent::from_room_message(rec), RoomEvent::RoomMessage(_)));
    let rec = StateScopedEvent {
        content: obj(vec![]),
        event_type: EventType::RoomCreate,
        event_id: "$1".to_string(),
        room_id: "!r".to_string(),
        sender: "@a".to_string(),
        state_key: "".to_string(),
    };
    match StateEvent::from_room_create(rec) {
        StateEvent::RoomCreate(inner) => assert_eq!(inner.event_type, EventType::RoomCreate),
        other => panic!("wrong member: {:?}", other),
    }
}
