use vstd::prelude::*;

use crate::text::str_equal;

verus! {

/// A JSON document as the chart services answer. A number keeps the text
/// that denotes it; an object keeps its members in order, and a lookup
/// takes the first member of the name asked for.
pub enum JsonValue {
    Null,
    Bool(bool),
    Number(String),
    Str(String),
    Array(Vec<JsonValue>),
    Object(Vec<JsonMember>),
}

/// One member of a JSON object.
pub struct JsonMember {
    pub key: String,
    pub value: JsonValue,
}

/// The value of the first member named `key`.
pub open spec fn member_value(members: Seq<JsonMember>, key: Seq<char>) -> Option<JsonValue>
    decreases members.len(),
{
    if members.len() == 0 {
        None
    } else if members[0].key@ == key {
        Some(members[0].value)
    } else {
        member_value(members.drop_first(), key)
    }
}

/// Members that precede the one looked for do not change the answer.
pub proof fn lemma_member_value_skip(members: Seq<JsonMember>, key: Seq<char>, i: int)
    requires
        0 <= i <= members.len(),
        forall|k: int| 0 <= k < i ==> (#[trigger] members[k]).key@ != key,
    ensures
        member_value(members, key) == member_value(members.skip(i), key),
    decreases i,
{
    if i == 0 {
        assert(members.skip(0) =~= members);
    } else {
        let rest = members.drop_first();
        assert(members[0].key@ != key);
        assert forall|k: int| 0 <= k < i - 1 implies (#[trigger] rest[k]).key@ != key by {
            assert(rest[k] == members[k + 1]);
        }
        lemma_member_value_skip(rest, key, i - 1);
        assert(rest.skip(i - 1) =~= members.skip(i));
    }
}

impl JsonValue {
    /// The member `key` of an object; nothing for any other value.
    pub open spec fn spec_get(self, key: Seq<char>) -> Option<JsonValue> {
        match self {
            JsonValue::Object(members) => member_value(members@, key),
            _ => None,
        }
    }

    /// The text of a string value.
    pub open spec fn spec_as_str(self) -> Option<Seq<char>> {
        match self {
            JsonValue::Str(s) => Some(s@),
            _ => None,
        }
    }

    /// The elements of an array value.
    pub open spec fn spec_as_array(self) -> Option<Seq<JsonValue>> {
        match self {
            JsonValue::Array(items) => Some(items@),
            _ => None,
        }
    }

    /// Looks up the member `key` of an object.
    pub fn get(&self, key: &str) -> (res: Option<&JsonValue>)
        ensures
            match res {
                Some(v) => self.spec_get(key@) == Some(*v),
                None => self.spec_get(key@) is None,
            },
    {
        match self {
            JsonValue::Object(members) => {
                let mut i: usize = 0;
                while i < members.len()
                    invariant
                        self.spec_get(key@) == member_value(members@, key@),
                        i <= members@.len(),
                        forall|k: int| 0 <= k < i ==> (#[trigger] members@[k]).key@ != key@,
                    decreases members.len() - i,
                {
                    if str_equal(members[i].key.as_str(), key) {
                        proof {
                            lemma_member_value_skip(members@, key@, i as int);
                            let rest = members@.skip(i as int);
                            assert(rest[0] == members@[i as int]);
                            assert(rest[0].key@ == key@);
                            assert(member_value(rest, key@) == Some(rest[0].value));
                        }
                        let found = &members[i];
                        assert(*found == members@[i as int]);
                        return Some(&found.value);
                    }
                    i = i + 1;
                }
                proof {
                    lemma_member_value_skip(members@, key@, i as int);
                    assert(members@.skip(i as int).len() == 0);
                }
                None
            },
            _ => None,
        }
    }

    /// The text of a string value.
    pub fn as_str(&self) -> (res: Option<&str>)
        ensures
            match res {
                Some(s) => self.spec_as_str() == Some(s@),
                None => self.spec_as_str() is None,
            },
    {
        match self {
            JsonValue::Str(s) => Some(s.as_str()),
            _ => None,
        }
    }

    /// The elements of an array value.
    pub fn as_array(&self) -> (res: Option<&Vec<JsonValue>>)
        ensures
            match res {
                Some(items) => self.spec_as_array() == Some(items@),
                None => self.spec_as_array() is None,
            },
    {
        match self {
            JsonValue::Array(items) => Some(items),
            _ => None,
        }
    }
}

/// `get` applied inside an optional value.
pub open spec fn opt_get(v: Option<JsonValue>, key: Seq<char>) -> Option<JsonValue> {
    match v {
        Some(x) => x.spec_get(key),
        None => None,
    }
}

/// `as_str` applied inside an optional value.
pub open spec fn opt_as_str(v: Option<JsonValue>) -> Option<Seq<char>> {
    match v {
        Some(x) => x.spec_as_str(),
        None => None,
    }
}

/// `as_array` applied inside an optional value.
pub open spec fn opt_as_array(v: Option<JsonValue>) -> Option<Seq<JsonValue>> {
    match v {
        Some(x) => x.spec_as_array(),
        None => None,
    }
}

} // verus!

verus! {

#[verifier::external_type_specification]
#[verifier::external_body]
pub struct ExSerdeJsonValue(serde_json::Value);

#[verifier::external_type_specification]
#[verifier::external_body]
pub struct ExSerdeJsonError(serde_json::Error);

/// The document `serde_json::from_slice` reads out of a byte string, in
/// this library's model; nothing when the bytes are not JSON.
pub uninterp spec fn json_parsed(bytes: Seq<u8>) -> Option<JsonValue>;

/// Carries a `serde_json::Value` over into this library's model, variant
/// for variant: a number becomes the text `serde_json::Number` displays, an
/// object keeps the members in the order the map yields them.
#[verifier::external_body]
fn from_serde(v: &serde_json::Value) -> JsonValue {
    match v {
        serde_json::Value::Null => JsonValue::Null,
        serde_json::Value::Bool(b) => JsonValue::Bool(*b),
        serde_json::Value::Number(n) => JsonValue::Number(n.to_string()),
        serde_json::Value::String(s) => JsonValue::Str(s.clone()),
        serde_json::Value::Array(items) => JsonValue::Array(items.iter().map(from_serde).collect()),
        serde_json::Value::Object(members) => JsonValue::Object(
            members.iter().map(|(k, v)| JsonMember { key: k.clone(), value: from_serde(v) }).collect(),
        ),
    }
}

/// `serde_json::from_slice::<serde_json::Value>`: reads a JSON document out
/// of a response body. Whether it succeeds and what it yields depend on the
/// bytes alone, which `json_parsed` names; on failure the error is serde's.
/// The call does not panic: nesting deeper than its recursion limit is an
/// error.
#[verifier::external_body]
pub fn parse_json(bytes: &[u8]) -> (res: Result<JsonValue, serde_json::Error>)
    ensures
        res is Ok <==> json_parsed(bytes@) is Some,
        res matches Ok(v) ==> json_parsed(bytes@) == Some(v),
{
    match serde_json::from_slice::<serde_json::Value>(bytes) {
        Ok(v) => Ok(from_serde(&v)),
        Err(e) => Err(e),
    }
}

} // verus!
