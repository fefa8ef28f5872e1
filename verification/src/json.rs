//! A parsed JSON document, as far as the library reads one.

use vstd::prelude::*;

use crate::text::same_text;

verus! {

/// A JSON value. Numbers, booleans and `null` are not told apart: nothing here
/// reads them.
#[derive(Debug)]
pub enum JsonValue {
    Other,
    Text(String),
    Array(Vec<JsonValue>),
    /// The members of an object, each name once.
    Object(Vec<(String, JsonValue)>),
}

/// Position `i` holds the first member with the name.
pub open spec fn field_at(members: Seq<(String, JsonValue)>, name: Seq<char>, i: int) -> bool {
    &&& 0 <= i < members.len()
    &&& members[i].0@ == name
    &&& forall|j: int| 0 <= j < i ==> (#[trigger] members[j]).0@ != name
}

/// The position of the first member with the name.
pub open spec fn first_field(members: Seq<(String, JsonValue)>, name: Seq<char>) -> int {
    choose|i: int| #[trigger] field_at(members, name, i)
}

/// The member of an object by its name, where there is one.
pub open spec fn field(value: JsonValue, name: Seq<char>) -> Option<JsonValue> {
    match value {
        JsonValue::Object(members) => if exists|i: int| #[trigger] field_at(members@, name, i) {
            Some(members@[first_field(members@, name)].1)
        } else {
            None
        },
        _ => None,
    }
}

/// The text of a value, where it is one.
pub open spec fn as_text(value: Option<JsonValue>) -> Option<Seq<char>> {
    match value {
        Some(JsonValue::Text(text)) => Some(text@),
        _ => None,
    }
}

/// The elements of a value, where it is an array.
pub open spec fn as_items(value: Option<JsonValue>) -> Option<Seq<JsonValue>> {
    match value {
        Some(JsonValue::Array(items)) => Some(items@),
        _ => None,
    }
}

impl JsonValue {
    /// The member of an object by its name, where there is one.
    pub fn get(&self, name: &str) -> (r: Option<&JsonValue>)
        ensures
            match r {
                Some(value) => field(*self, name@) == Some(*value),
                None => field(*self, name@) is None,
            },
            r matches Some(value) ==> *self is Object && exists|i: int|
                {
                    &&& 0 <= i < self->Object_0@.len()
                    &&& (#[trigger] self->Object_0@[i]).0@ == name@
                    &&& self->Object_0@[i].1 == *value
                    &&& forall|j: int| 0 <= j < i ==> (#[trigger] self->Object_0@[j]).0@ != name@
                },
            r is None ==> *self !is Object || forall|i: int|
                0 <= i < self->Object_0@.len() ==> (#[trigger] self->Object_0@[i]).0@ != name@,
    {
        match self {
            JsonValue::Object(members) => {
                let mut i: usize = 0;
                while i < members.len()
                    invariant
                        *self == JsonValue::Object(*members),
                        i <= members@.len(),
                        forall|j: int| 0 <= j < i ==> (#[trigger] members@[j]).0@ != name@,
                    decreases members@.len() - i,
                {
                    if same_text(members[i].0.as_str(), name) {
                        proof {
                            assert(field_at(members@, name@, i as int));
                            let k = first_field(members@, name@);
                            assert(field_at(members@, name@, k));
                            if k < i {
                                assert(members@[k].0@ != name@);
                            } else if i < k {
                                assert(members@[i as int].0@ != name@);
                            }
                            assert(k == i);
                            assert(self matches JsonValue::Object(held) && held@ == members@);
                            assert(field(*self, name@) == Some(members@[k].1));
                        }
                        return Some(&members[i].1);
                    }
                    i += 1;
                }
                proof {
                    if exists|k: int| #[trigger] field_at(members@, name@, k) {
                        let k = choose|k: int| #[trigger] field_at(members@, name@, k);
                        assert(members@[k].0@ != name@);
                    }
                }
                None
            },
            _ => None,
        }
    }

    /// The text of this value, where it is one.
    pub fn as_str(&self) -> (r: Option<&str>)
        ensures
            (match r {
                Some(text) => Some(text@),
                None => None,
            }) == as_text(Some(*self)),
            r is Some <==> *self is Text,
            r matches Some(text) ==> text@ == self->Text_0@,
    {
        match self {
            JsonValue::Text(text) => Some(text.as_str()),
            _ => None,
        }
    }

    /// The elements of this value, where it is an array.
    pub fn as_array(&self) -> (r: Option<&Vec<JsonValue>>)
        ensures
            (match r {
                Some(items) => Some(items@),
                None => None,
            }) == as_items(Some(*self)),
            r is Some <==> *self is Array,
            r matches Some(items) ==> items@ == self->Array_0@,
    {
        match self {
            JsonValue::Array(items) => Some(items),
            _ => None,
        }
    }
}

/// A member that stands in an object, with no other member of its name before
/// it, is the one that its name gives; a name that no member has gives none.
pub proof fn a_name_gives_its_member(members: Vec<(String, JsonValue)>, name: Seq<char>, i: int)
    ensures
        0 <= i < members@.len() && members@[i].0@ == name && (forall|j: int|
            0 <= j < i ==> (#[trigger] members@[j]).0@ != name) ==> field(
            JsonValue::Object(members),
            name,
        ) == Some(members@[i].1),
        (forall|j: int| 0 <= j < members@.len() ==> (#[trigger] members@[j]).0@ != name) ==> field(
            JsonValue::Object(members),
            name,
        ) is None,
{
    if 0 <= i < members@.len() && members@[i].0@ == name && (forall|j: int|
        0 <= j < i ==> (#[trigger] members@[j]).0@ != name) {
        assert(field_at(members@, name, i));
        let k = first_field(members@, name);
        assert(field_at(members@, name, k));
        if k < i {
            assert(members@[k].0@ != name);
        } else if i < k {
            assert(members@[i].0@ != name);
        }
    }
}

/// Only a text has a text, only an array has elements, and only an object has
/// members.
pub proof fn a_value_is_read_as_what_it_is(value: JsonValue, name: Seq<char>)
    ensures
        as_text(Some(value)) is Some <==> value is Text,
        value matches JsonValue::Text(text) ==> as_text(Some(value)) == Some(text@),
        as_items(Some(value)) is Some <==> value is Array,
        value matches JsonValue::Array(items) ==> as_items(Some(value)) == Some(items@),
        value !is Object ==> field(value, name) is None,
        as_text(None) is None,
        as_items(None) is None,
{
}

} // verus!
