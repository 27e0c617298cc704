//! JSON values, as far as the engine reads them.

use vstd::prelude::*;

verus! {

/// Why a text is not JSON: `serde_json::Error`.
#[verifier::external_type_specification]
#[verifier::external_body]
pub struct ExJsonError(serde_json::Error);

/// A JSON value as the parser builds it: `serde_json::Value`.
#[verifier::external_type_specification]
#[verifier::external_body]
pub struct ExJsonOutside(serde_json::Value);

/// A JSON value. A number is kept as the text that denotes it, and an
/// object as the list of its members.
#[derive(Debug, PartialEq, Eq)]
pub enum JsonValue {
    Null,
    Bool(bool),
    Number(String),
    Text(String),
    Array(Vec<JsonValue>),
    Object(Vec<(String, JsonValue)>),
}

/// The value of the first member named `key`, if there is one.
pub open spec fn member_of(members: Seq<(String, JsonValue)>, key: Seq<char>) -> Option<JsonValue>
    decreases members.len(),
{
    if members.len() == 0 {
        None
    } else if members[0].0@ == key {
        Some(members[0].1)
    } else {
        member_of(members.drop_first(), key)
    }
}

impl JsonValue {
    /// The member named `key`, if the value is an object that has one.
    pub open spec fn spec_member(self, key: Seq<char>) -> Option<JsonValue> {
        match self {
            JsonValue::Object(members) => member_of(members@, key),
            _ => None,
        }
    }

    /// The element at `index`, if the value is an array that long.
    pub open spec fn spec_element(self, index: int) -> Option<JsonValue> {
        match self {
            JsonValue::Array(elements) => if 0 <= index < elements.len() {
                Some(elements[index])
            } else {
                None
            },
            _ => None,
        }
    }

    /// The characters, if the value is a string.
    pub open spec fn spec_text(self) -> Option<Seq<char>> {
        match self {
            JsonValue::Text(t) => Some(t@),
            _ => None,
        }
    }

    /// The first value of a field in a document that maps each field's
    /// name to the list of its values: the text of the first element of the
    /// member named `field`, and the empty text where the value is not an
    /// object, has no such member, or the member's first element is not a
    /// string.
    pub open spec fn spec_first_text(self, field: Seq<char>) -> Seq<char> {
        match self.spec_member(field) {
            Some(values) => match values.spec_element(0) {
                Some(first) => match first.spec_text() {
                    Some(t) => t,
                    None => Seq::empty(),
                },
                None => Seq::empty(),
            },
            None => Seq::empty(),
        }
    }

    pub fn member(&self, key: &str) -> (r: Option<&JsonValue>)
        ensures
            r == match self.spec_member(key@) {
                Some(v) => Some(&v),
                None => None,
            },
    {
        match self {
            JsonValue::Object(members) => {
                let mut i: usize = 0;
                assert(members@.subrange(0, members.len() as int) =~= members@);
                while i < members.len()
                    invariant
                        i <= members.len(),
                        self == JsonValue::Object(*members),
                        member_of(members@, key@) == member_of(
                            members@.subrange(i as int, members.len() as int),
                            key@,
                        ),
                    decreases members.len() - i,
                {
                    let ghost rest = members@.subrange(i as int, members.len() as int);
                    assert(rest[0] == members@[i as int]);
                    assert(rest.drop_first() =~= members@.subrange(
                        i as int + 1,
                        members.len() as int,
                    ));
                    if same_text(members[i].0.as_str(), key) {
                        assert(member_of(rest, key@) == Some(members@[i as int].1));
                        return Some(&members[i].1);
                    }
                    assert(member_of(rest, key@) == member_of(rest.drop_first(), key@));
                    i += 1;
                }
                assert(members@.subrange(i as int, members.len() as int).len() == 0);
                None
            },
            _ => None,
        }
    }

    pub fn element(&self, index: usize) -> (r: Option<&JsonValue>)
        ensures
            r == match self.spec_element(index as int) {
                Some(v) => Some(&v),
                None => None,
            },
    {
        match self {
            JsonValue::Array(elements) => if index < elements.len() {
                Some(&elements[index])
            } else {
                None
            },
            _ => None,
        }
    }

    pub fn text(&self) -> (r: Option<&String>)
        ensures
            match r {
                Some(t) => self.spec_text() == Some(t@),
                None => self.spec_text() is None,
            },
    {
        match self {
            JsonValue::Text(t) => Some(t),
            _ => None,
        }
    }

    /// The first value of `field`, or the empty text.
    pub fn first_text(&self, field: &str) -> (r: String)
        ensures
            r@ == self.spec_first_text(field@),
    {
        match self.member(field) {
            Some(values) => match values.element(0) {
                Some(first) => match first.text() {
                    Some(t) => t.clone(),
                    None => String::new(),
                },
                None => String::new(),
            },
            None => String::new(),
        }
    }
}

/// Whether two texts hold the same characters.
pub fn same_text(a: &str, b: &str) -> (r: bool)
    ensures
        r == (a@ == b@),
{
    let n = a.unicode_len();
    if n != b.unicode_len() {
        return false;
    }
    let mut i: usize = 0;
    while i < n
        invariant
            i <= n,
            n == a@.len(),
            n == b@.len(),
            forall|k: int| 0 <= k < i ==> a@[k] == b@[k],
        decreases n - i,
    {
        if a.get_char(i) != b.get_char(i) {
            return false;
        }
        i += 1;
    }
    assert(a@ =~= b@);
    true
}

/// `serde_json::Value`'s variants, one for one: a number becomes the text
/// of its `Display`, an object the list of its members in the order in
/// which `serde_json::Map` hands them out.
#[verifier::external_body]
fn from_outside(value: serde_json::Value) -> (r: JsonValue) {
    match value {
        serde_json::Value::Null => JsonValue::Null,
        serde_json::Value::Bool(b) => JsonValue::Bool(b),
        serde_json::Value::Number(n) => JsonValue::Number(n.to_string()),
        serde_json::Value::String(s) => JsonValue::Text(s),
        serde_json::Value::Array(a) => JsonValue::Array(a.into_iter().map(from_outside).collect()),
        serde_json::Value::Object(o) => JsonValue::Object(
            o.into_iter().map(|(k, v)| (k, from_outside(v))).collect(),
        ),
    }
}

/// The value that a text denotes as JSON, if it denotes one.
pub uninterp spec fn json_of(text: Seq<char>) -> Option<JsonValue>;

/// `serde_json::from_str` into a `serde_json::Value`: the value that a text
/// denotes, or why it denotes none. What a text denotes depends on the text
/// alone.
#[verifier::external_body]
pub(crate) fn parse(text: &str) -> (r: Result<JsonValue, serde_json::Error>)
    ensures
        match r {
            Ok(value) => json_of(text@) == Some(value),
            Err(_) => json_of(text@) is None,
        },
{
    serde_json::from_str::<serde_json::Value>(text).map(from_outside)
}

/// `serde_json::Error`'s `Display`: the failure as text.
#[verifier::external_body]
pub(crate) fn parse_detail(error: &serde_json::Error) -> (r: String) {
    error.to_string()
}

} // verus!
