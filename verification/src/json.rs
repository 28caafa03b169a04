//! A structured, JSON-like value and field lookup over it.
//!
//! This is the generic representation that container decoding works on: a
//! tree of nulls, booleans, unsigned integers, strings, arrays, and objects.
//! An object is a sequence of key/value bindings; lookup returns the first
//! binding for a key, scanning left to right.

use vstd::prelude::*;

verus! {

/// A JSON-like structured value.
#[derive(Debug, PartialEq)]
pub enum JsonValue {
    Null,
    Bool(bool),
    Num(u64),
    Str(String),
    Arr(Vec<JsonValue>),
    Obj(Vec<(String, JsonValue)>),
}

/// The first value bound to `key` among `fields`, scanning left to right.
pub open spec fn spec_lookup(fields: Seq<(String, JsonValue)>, key: Seq<char>) -> Option<JsonValue>
    decreases fields.len(),
{
    if fields.len() == 0 {
        None
    } else if fields[0].0@ == key {
        Some(fields[0].1)
    } else {
        spec_lookup(fields.drop_first(), key)
    }
}

/// Field lookup on a value: an object yields its first binding for `key`;
/// any other shape has no fields.
pub open spec fn spec_get(v: JsonValue, key: Seq<char>) -> Option<JsonValue> {
    match v {
        JsonValue::Obj(fields) => spec_lookup(fields@, key),
        _ => None,
    }
}

/// The bindings of an object value; an empty sequence for any other shape.
pub open spec fn spec_obj_fields(v: JsonValue) -> Seq<(String, JsonValue)> {
    match v {
        JsonValue::Obj(fields) => fields@,
        _ => Seq::empty(),
    }
}

/// Relies on `str`'s `==` operator: true exactly when the two strings
/// consist of the same characters.
#[verifier::external_body]
pub(crate) fn str_eq(a: &str, b: &str) -> (r: bool)
    ensures
        r == (a@ == b@),
{
    a == b
}

proof fn lemma_lookup_at_first_index(
    fields: Seq<(String, JsonValue)>,
    key: Seq<char>,
    i: int,
)
    requires
        0 <= i < fields.len(),
        fields[i].0@ == key,
        forall|j: int| 0 <= j < i ==> fields[j].0@ != key,
    ensures
        spec_lookup(fields, key) == Some(fields[i].1),
    decreases i,
{
    if i > 0 {
        lemma_lookup_at_first_index(fields.drop_first(), key, i - 1);
    }
}

proof fn lemma_lookup_absent(fields: Seq<(String, JsonValue)>, key: Seq<char>)
    requires
        forall|j: int| 0 <= j < fields.len() ==> fields[j].0@ != key,
    ensures
        spec_lookup(fields, key) is None,
    decreases fields.len(),
{
    if fields.len() > 0 {
        lemma_lookup_absent(fields.drop_first(), key);
    }
}

/// How appending a binding changes lookup: an existing binding for `key`
/// still wins; otherwise the appended binding is found exactly when its key
/// is `key`.
pub proof fn lemma_lookup_push(
    fields: Seq<(String, JsonValue)>,
    kv: (String, JsonValue),
    key: Seq<char>,
)
    ensures
        spec_lookup(fields.push(kv), key) == (if spec_lookup(fields, key) is Some {
            spec_lookup(fields, key)
        } else if kv.0@ == key {
            Some(kv.1)
        } else {
            None::<JsonValue>
        }),
    decreases fields.len(),
{
    let pushed = fields.push(kv);
    assert(pushed.len() == fields.len() + 1);
    if fields.len() == 0 {
        assert(pushed[0] == kv);
        assert(pushed.drop_first() =~= Seq::<(String, JsonValue)>::empty());
        if kv.0@ == key {
            assert(spec_lookup(pushed, key) == Some(kv.1));
        } else {
            assert(spec_lookup(pushed, key) == spec_lookup(pushed.drop_first(), key));
            assert(spec_lookup(pushed.drop_first(), key) is None);
        }
    } else {
        assert(pushed[0] == fields[0]);
        assert(pushed.drop_first() =~= fields.drop_first().push(kv));
        lemma_lookup_push(fields.drop_first(), kv, key);
        if fields[0].0@ == key {
            assert(spec_lookup(pushed, key) == Some(fields[0].1));
            assert(spec_lookup(fields, key) == Some(fields[0].1));
        } else {
            assert(spec_lookup(pushed, key) == spec_lookup(pushed.drop_first(), key));
            assert(spec_lookup(fields, key) == spec_lookup(fields.drop_first(), key));
        }
    }
}

/// The field names that the container layer reads are pairwise different.
pub proof fn lemma_field_names_distinct()
    ensures
        "content"@ != "type"@,
        "content"@ != "event_id"@,
        "content"@ != "room_id"@,
        "content"@ != "sender"@,
        "content"@ != "state_key"@,
        "content"@ != "m_read"@,
        "content"@ != "ts"@,
        "type"@ != "event_id"@,
        "type"@ != "room_id"@,
        "type"@ != "sender"@,
        "type"@ != "state_key"@,
        "type"@ != "m_read"@,
        "type"@ != "ts"@,
        "event_id"@ != "room_id"@,
        "event_id"@ != "sender"@,
        "event_id"@ != "state_key"@,
        "event_id"@ != "m_read"@,
        "event_id"@ != "ts"@,
        "room_id"@ != "sender"@,
        "room_id"@ != "state_key"@,
        "room_id"@ != "m_read"@,
        "room_id"@ != "ts"@,
        "sender"@ != "state_key"@,
        "sender"@ != "m_read"@,
        "sender"@ != "ts"@,
        "state_key"@ != "m_read"@,
        "state_key"@ != "ts"@,
        "m_read"@ != "ts"@,
{
    reveal_strlit("content");
    reveal_strlit("type");
    reveal_strlit("event_id");
    reveal_strlit("room_id");
    reveal_strlit("sender");
    reveal_strlit("state_key");
    reveal_strlit("m_read");
    reveal_strlit("ts");
    assert("content"@.len() == 7);
    assert("type"@.len() == 4);
    assert("event_id"@.len() == 8);
    assert("room_id"@.len() == 7);
    assert("sender"@.len() == 6);
    assert("state_key"@.len() == 9);
    assert("m_read"@.len() == 6);
    assert("ts"@.len() == 2);
    assert("content"@[0] == 'c' && "room_id"@[0] == 'r');
    assert("sender"@[0] == 's' && "m_read"@[0] == 'm');
}

/// The index of the first binding for `key`, if there is one.
pub fn find_field(fields: &Vec<(String, JsonValue)>, key: &str) -> (r: Option<usize>)
    ensures
        match r {
            Some(i) => 0 <= i < fields@.len() && fields@[i as int].0@ == key@
                && spec_lookup(fields@, key@) == Some(fields@[i as int].1),
            None => spec_lookup(fields@, key@) is None,
        },
{
    let mut i: usize = 0;
    while i < fields.len()
        invariant
            0 <= i <= fields@.len(),
            forall|j: int| 0 <= j < i ==> fields@[j].0@ != key@,
        decreases fields@.len() - i,
    {
        if str_eq(fields[i].0.as_str(), key) {
            proof {
                lemma_lookup_at_first_index(fields@, key@, i as int);
            }
            return Some(i);
        }
        i += 1;
    }
    proof {
        lemma_lookup_absent(fields@, key@);
    }
    None
}

/// A borrow of the first value bound to `key`, if there is one.
pub fn get_field<'a>(fields: &'a Vec<(String, JsonValue)>, key: &str) -> (r: Option<
    &'a JsonValue,
>)
    ensures
        match r {
            Some(x) => spec_lookup(fields@, key@) == Some(*x),
            None => spec_lookup(fields@, key@) is None,
        },
{
    match find_field(fields, key) {
        Some(i) => Some(&fields[i].1),
        None => None,
    }
}

/// Removes and returns the first value bound to `key`, if there is one.
/// The remaining bindings are left in their original order.
pub fn take_field(fields: &mut Vec<(String, JsonValue)>, key: &str) -> (r: Option<JsonValue>)
    ensures
        match r {
            Some(x) => spec_lookup(old(fields)@, key@) == Some(x),
            None => spec_lookup(old(fields)@, key@) is None && final(fields)@ == old(fields)@,
        },
{
    match find_field(fields, key) {
        Some(i) => {
            let (_key, value) = fields.remove(i);
            Some(value)
        },
        None => None,
    }
}

} // verus!
