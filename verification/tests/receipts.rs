use ruma_events::collections::{Event, StateEvent};
use ruma_events::event_type::{EventType, parse_event_type};
use ruma_events::json::JsonValue;
use ruma_events::records::{DecodeError, FieldFault, FieldId};
use ruma_events::receipt::{Receipt, ReceiptEvent, Receipts};

fn s(x: &str) -> JsonValue {
    JsonValue::Str(x.to_string())
}

fn obj(fields: Vec<(&str, JsonValue)>) -> JsonValue {
    JsonValue::Obj(fields.into_iter().map(|(k, v)| (k.to_string(), v)).collect())
}

fn receipt_payload() -> JsonValue {
    obj(vec![
        ("type", s("m.receipt")),
        (
            "content",
            obj(vec![(
                "$event:server",
                obj(vec![("m_read", obj(vec![("@user:server", obj(vec![("ts", JsonValue::Num(1500))]))]))]),
            )]),
        ),
        ("room_id", s("!room:server")),
    ])
}

#[test]
fn receipt_decodes_typed_content() {
    match Event::deserialize(receipt_payload()).unwrap() {
        Event::Receipt(rec) => {
            assert_eq!(rec.event_type, EventType::Receipt);
            assert_eq!(rec.room_id, "!room:server");
            assert_eq!(rec.content.len(), 1);
            assert_eq!(rec.content[0].0, "$event:server");
            assert_eq!(rec.content[0].1.m_read.len(), 1);
            assert_eq!(rec.content[0].1.m_read[0].0, "@user:server");
            assert_eq!(rec.content[0].1.m_read[0].1.ts, 1500);
        }
        other => panic!("wrong member: {:?}", other),
    }
}

#[test]
fn receipt_round_trip() {
    let rec = ReceiptEvent {
        content: vec![(
            "$e:s".to_string(),
            Receipts {
                m_read: vec![
                    ("@a:s".to_string(), Receipt { ts: 7 }),
                    ("@b:s".to_string(), Receipt { ts: 9 }),
                ],
            },
        )],
        event_type: EventType::Receipt,
        room_id: "!r:s".to_string(),
    };
    let encoded = Event::Receipt(rec).serialize();
    match Event::deserialize(encoded).unwrap() {
        Event::Receipt(back) => {
            assert_eq!(back.room_id, "!r:s");
            assert_eq!(back.content.len(), 1);
            assert_eq!(back.content[0].0, "$e:s");
            let reads = &back.content[0].1.m_read;
            assert_eq!(reads.len(), 2);
            assert_eq!(reads[0], ("@a:s".to_string(), Receipt { ts: 7 }));
            assert_eq!(reads[1], ("@b:s".to_string(), Receipt { ts: 9 }));
        }
        other => panic!("wrong member: {:?}", other),
    }
}

#[test]
fn receipt_malformed_content() {
    let bad_ts = obj(vec![
        ("type", s("m.receipt")),
        (
            "content",
            obj(vec![("$e", obj(vec![("m_read", obj(vec![("@u", obj(vec![("ts", s("soon"))]))]))]))]),
        ),
        ("room_id", s("!r")),
    ]);
    assert_eq!(
        Event::deserialize(bad_ts),
        Err(DecodeError::LeafDecodeFailure(FieldFault::Invalid(FieldId::Content)))
    );
    let no_m_read = obj(vec![
        ("type", s("m.receipt")),
        ("content", obj(vec![("$e", obj(vec![]))])),
        ("room_id", s("!r")),
    ]);
    assert_eq!(
        Event::deserialize(no_m_read),
        Err(DecodeError::LeafDecodeFailure(FieldFault::Invalid(FieldId::Content)))
    );
    let no_room = obj(vec![("type", s("m.receipt")), ("content", obj(vec![]))]);
    assert_eq!(
        Event::deserialize(no_room),
        Err(DecodeError::LeafDecodeFailure(FieldFault::Missing(FieldId::RoomId)))
    );
}

#[test]
fn discriminator_parsing() {
    assert_eq!(parse_event_type(&"m.room.create".to_string()), EventType::RoomCreate);
    assert_eq!(parse_event_type(&"m.typing".to_string()), EventType::Typing);
    assert_eq!(
        parse_event_type(&"org.example.custom".to_string()),
        EventType::Custom("org.example.custom".to_string())
    );
    assert_eq!(EventType::RoomPowerLevels.tag_string(), "m.room.power_levels");
    assert_eq!(
        EventType::Custom("org.example.custom".to_string()).tag_string(),
        "org.example.custom"
    );
}

#[test]
fn state_custom_requires_state_key_structurally() {
    // The state container classifies every unrecognized discriminator as
    // the state fallback with no presence check, so a payload without a
    // state key fails the record's own decode rather than being rejected
    // up front.
    let payload = obj(vec![("type", s("m.unknown.x")), ("content", obj(vec![]))]);
    assert_eq!(
        StateEvent::deserialize(payload),
        Err(DecodeError::LeafDecodeFailure(FieldFault::Missing(FieldId::StateKey)))
    );
}
