//! Structured values, as the process writes them in JSON.

use vstd::prelude::*;

verus! {

/// A decoded JSON value of `serde_json`, as that crate holds it.
#[verifier::external_type_specification]
#[verifier::external_body]
pub struct ExValue(serde_json::Value);

/// One value of a structured answer.
///
/// A number is kept as the text that stands for it, so that nothing of it is
/// lost before it is turned into the type that a caller asks for. An object
/// keeps its members in the order in which the decoder hands them out, each
/// key once.
#[derive(Debug, PartialEq)]
pub enum JsonValue {
    Null,
    Bool(bool),
    Number(String),
    Text(String),
    Array(Vec<JsonValue>),
    Object(Vec<(String, JsonValue)>),
}

/// What `serde_json` decodes a JSON text to: `None` where the bytes are no
/// JSON text.
pub uninterp spec fn decoded_json(bytes: Seq<u8>) -> Option<JsonValue>;

/// Turns a value of `serde_json` into one of this crate, variant by variant.
/// A number is written out by its `Display`.
#[verifier::external_body]
fn lift(value: serde_json::Value) -> JsonValue {
    match value {
        serde_json::Value::Null => JsonValue::Null,
        serde_json::Value::Bool(flag) => JsonValue::Bool(flag),
        serde_json::Value::Number(number) => JsonValue::Number(number.to_string()),
        serde_json::Value::String(text) => JsonValue::Text(text),
        serde_json::Value::Array(items) => JsonValue::Array(items.into_iter().map(lift).collect()),
        serde_json::Value::Object(members) => JsonValue::Object(
            members.into_iter().map(|(key, member)| (key, lift(member))).collect(),
        ),
    }
}

/// Decodes a JSON text with `serde_json::from_slice`. The result depends on
/// the bytes alone; it is `Ok` exactly where `decoded_json` is `Some`, and
/// then holds that value.
#[verifier::external_body]
pub(crate) fn decode(bytes: &[u8]) -> (decoded: Result<JsonValue, serde_json::Error>)
    ensures
        decoded is Ok <==> decoded_json(bytes@) is Some,
        decoded is Ok ==> decoded_json(bytes@) == Some(decoded->Ok_0),
{
    serde_json::from_slice::<serde_json::Value>(bytes).map(lift)
}

/// The members of an object as pairs of a key's characters and a value.
pub open spec fn members_of(members: Seq<(String, JsonValue)>) -> Seq<(Seq<char>, JsonValue)> {
    Seq::new(members.len(), |i: int| (members[i].0@, members[i].1))
}

/// The index of the first member with this key, or the number of members
/// where none has it.
pub open spec fn key_index(members: Seq<(Seq<char>, JsonValue)>, key: Seq<char>) -> nat
    decreases members.len(),
{
    if members.len() == 0 {
        0
    } else if members[0].0 == key {
        0
    } else {
        1 + key_index(members.drop_first(), key)
    }
}

/// The value that `value` holds under `key`: `None` where `value` is no
/// object or has no such member.
pub open spec fn member(value: JsonValue, key: Seq<char>) -> Option<JsonValue> {
    match value {
        JsonValue::Object(members) => if key_index(members_of(members@), key) < members@.len() {
            Some(members@[key_index(members_of(members@), key) as int].1)
        } else {
            None
        },
        _ => None,
    }
}

proof fn lemma_key_index(members: Seq<(Seq<char>, JsonValue)>, key: Seq<char>, k: int)
    requires
        0 <= k <= members.len(),
        forall|j: int| 0 <= j < k ==> members[j].0 != key,
        k == members.len() || members[k].0 == key,
    ensures
        key_index(members, key) == k,
    decreases k,
{
    if k > 0 {
        let rest = members.drop_first();
        assert forall|j: int| 0 <= j < k - 1 implies rest[j].0 != key by {
            assert(rest[j] == members[j + 1]);
        }
        if k < members.len() {
            assert(rest[k - 1] == members[k]);
        }
        lemma_key_index(rest, key, k - 1);
    }
}

impl JsonValue {
    /// Takes the value under `key` out of an object.
    pub fn into_member(self, key: &str) -> (found: Option<JsonValue>)
        ensures
            found == member(self, key@),
    {
        match self {
            JsonValue::Object(members) => {
                let mut members = members;
                let wanted = String::from_str(key);
                let mut i: usize = 0;
                while i < members.len()
                    invariant
                        i <= members.len(),
                        wanted@ == key@,
                        self is Object,
                        members == self->Object_0,
                        forall|j: int| 0 <= j < i ==> (#[trigger] members_of(members@)[j]).0 != key@,
                    decreases members.len() - i,
                {
                    assert(members_of(members@)[i as int].0 == members@[i as int].0@);
                    if members[i].0 == wanted {
                        proof {
                            lemma_key_index(members_of(members@), key@, i as int);
                        }
                        let (_, value) = members.remove(i);
                        return Some(value);
                    }
                    i += 1;
                }
                proof {
                    lemma_key_index(members_of(members@), key@, members@.len() as int);
                }
                None
            },
            _ => None,
        }
    }
}

} // verus!
