//! A JSON document as plain values, with the few probes that the
//! normalizer and the router make into one: member lookup, and reading a
//! value as text or as an unsigned integer.

use crate::text::same_text;
use vstd::prelude::*;

verus! {

/// A JSON number, kept to what the probes can tell apart: a non-negative
/// integer, a negative integer, or a number that is not an integer.
#[derive(Debug, Clone, Copy, PartialEq, Eq)]
pub enum JsonNumber {
    Unsigned(u64),
    Negative(i64),
    Fractional,
}

/// A JSON document. An object keeps its members in the order in which they
/// were written; where a key is repeated, the last member with it counts.
#[derive(Debug, PartialEq, Eq)]
pub enum JsonValue {
    Null,
    Bool(bool),
    Number(JsonNumber),
    Text(String),
    Array(Vec<JsonValue>),
    Object(Vec<(String, JsonValue)>),
}

/// The mathematical value of a [`JsonValue`].
pub enum JsonModel {
    Null,
    Bool(bool),
    Number(JsonNumber),
    Text(Seq<char>),
    Array(Seq<JsonModel>),
    Object(Seq<(Seq<char>, JsonModel)>),
}

/// The position of the last entry of `keys` that equals `key`.
pub open spec fn last_index_of(keys: Seq<Seq<char>>, key: Seq<char>) -> Option<int>
    decreases keys.len(),
{
    if keys.len() == 0 {
        None
    } else if keys.last() == key {
        Some(keys.len() - 1)
    } else {
        last_index_of(keys.drop_last(), key)
    }
}

/// The keys of a list of named entries, in order.
pub open spec fn keys_of<V>(pairs: Seq<(String, V)>) -> Seq<Seq<char>> {
    Seq::new(pairs.len(), |i: int| pairs[i].0@)
}

/// Where `last_index_of` finds the key, it names a position that holds it,
/// and no later position does; where it finds none, no position holds it.
pub proof fn lemma_last_index_of(keys: Seq<Seq<char>>, key: Seq<char>)
    ensures
        match last_index_of(keys, key) {
            Some(i) => 0 <= i < keys.len() && keys[i] == key && forall|j: int|
                i < j < keys.len() ==> #[trigger] keys[j] != key,
            None => forall|j: int| 0 <= j < keys.len() ==> #[trigger] keys[j] != key,
        },
    decreases keys.len(),
{
    if keys.len() > 0 && keys.last() != key {
        let front = keys.drop_last();
        lemma_last_index_of(front, key);
        assert forall|j: int| 0 <= j < front.len() implies front[j] == keys[j] by {}
    }
}

/// The position that `last_index_of` finds among the keys of `pairs` holds
/// the key and no later one does; where it finds none, no entry holds it.
proof fn lemma_last_entry<V>(pairs: Seq<(String, V)>, key: Seq<char>)
    ensures
        match last_index_of(keys_of(pairs), key) {
            Some(i) => 0 <= i < pairs.len() && pairs[i].0@ == key && forall|j: int|
                i < j < pairs.len() ==> (#[trigger] pairs[j]).0@ != key,
            None => forall|j: int| 0 <= j < pairs.len() ==> (#[trigger] pairs[j]).0@ != key,
        },
{
    let keys = keys_of(pairs);
    lemma_last_index_of(keys, key);
    assert forall|j: int| 0 <= j < pairs.len() implies keys[j] == (#[trigger] pairs[j]).0@ by {}
}

/// Finds the last entry named `key`: its position, after which no entry
/// has that name, or nothing where no entry has it.
pub fn find_last<V>(pairs: &Vec<(String, V)>, key: &str) -> (r: Option<usize>)
    ensures
        match r {
            Some(i) => last_index_of(keys_of(pairs@), key@) == Some(i as int) && i < pairs.len()
                && pairs[i as int].0@ == key@ && forall|j: int|
                i < j < pairs.len() ==> (#[trigger] pairs[j]).0@ != key@,
            None => last_index_of(keys_of(pairs@), key@) is None && forall|j: int|
                0 <= j < pairs.len() ==> (#[trigger] pairs[j]).0@ != key@,
        },
{
    let ghost keys = keys_of(pairs@);
    proof {
        lemma_last_entry(pairs@, key@);
    }
    let mut i: usize = pairs.len();
    assert(keys.take(i as int) =~= keys);
    while i > 0
        invariant
            i <= pairs.len(),
            keys == keys_of(pairs@),
            last_index_of(keys, key@) == last_index_of(keys.take(i as int), key@),
        decreases i,
    {
        i = i - 1;
        assert(keys.take(i + 1).drop_last() =~= keys.take(i as int));
        if same_text(pairs[i].0.as_str(), key) {
            proof {
                lemma_last_entry(pairs@, key@);
            }
            return Some(i);
        }
    }
    None
}

/// The value that a document stands for: texts by their characters, arrays
/// and objects by the values of their parts, in order.
pub open spec fn model_of(v: JsonValue) -> JsonModel
    decreases v,
{
    match v {
        JsonValue::Null => JsonModel::Null,
        JsonValue::Bool(b) => JsonModel::Bool(b),
        JsonValue::Number(n) => JsonModel::Number(n),
        JsonValue::Text(s) => JsonModel::Text(s@),
        JsonValue::Array(items) => JsonModel::Array(
            Seq::new(
                items@.len(),
                |i: int|
                    if 0 <= i < items@.len() {
                        model_of(items@[i])
                    } else {
                        JsonModel::Null
                    },
            ),
        ),
        JsonValue::Object(fields) => JsonModel::Object(
            Seq::new(
                fields@.len(),
                |i: int|
                    if 0 <= i < fields@.len() {
                        (fields@[i].0@, model_of(fields@[i].1))
                    } else {
                        (Seq::empty(), JsonModel::Null)
                    },
            ),
        ),
    }
}

impl View for JsonValue {
    type V = JsonModel;

    open spec fn view(&self) -> JsonModel {
        model_of(*self)
    }
}

impl JsonModel {
    /// The keys of an object's members, in order.
    pub open spec fn member_keys(members: Seq<(Seq<char>, JsonModel)>) -> Seq<Seq<char>> {
        Seq::new(members.len(), |i: int| members[i].0)
    }

    /// The member named `key`, where this is an object that has one.
    pub open spec fn get(self, key: Seq<char>) -> Option<JsonModel> {
        match self {
            JsonModel::Object(members) => match last_index_of(Self::member_keys(members), key) {
                Some(i) => Some(members[i].1),
                None => None,
            },
            _ => None,
        }
    }

    /// The characters of a text value.
    pub open spec fn as_text(self) -> Option<Seq<char>> {
        match self {
            JsonModel::Text(s) => Some(s),
            _ => None,
        }
    }

    /// The value of a non-negative integer.
    pub open spec fn as_unsigned(self) -> Option<u64> {
        match self {
            JsonModel::Number(JsonNumber::Unsigned(n)) => Some(n),
            _ => None,
        }
    }

    /// The text of the member named `key`, where there is one and it is text.
    pub open spec fn text_at(self, key: Seq<char>) -> Option<Seq<char>> {
        match self.get(key) {
            Some(v) => v.as_text(),
            None => None,
        }
    }

    /// The value of the member named `key`, where there is one and it is a
    /// non-negative integer.
    pub open spec fn unsigned_at(self, key: Seq<char>) -> Option<u64> {
        match self.get(key) {
            Some(v) => v.as_unsigned(),
            None => None,
        }
    }
}

impl JsonValue {
    /// The member named `key`, where this is an object that has one.
    pub fn get(&self, key: &str) -> (r: Option<&JsonValue>)
        ensures
            match r {
                Some(v) => self@.get(key@) == Some(v@),
                None => self@.get(key@) is None,
            },
    {
        match self {
            JsonValue::Object(fields) => {
                proof {
                    assert(JsonModel::member_keys(self@->Object_0) =~= keys_of(fields@));
                }
                match find_last(fields, key) {
                    Some(i) => Some(&fields[i].1),
                    None => None,
                }
            },
            _ => None,
        }
    }

    /// The characters of a text value.
    pub fn as_str(&self) -> (r: Option<&str>)
        ensures
            match r {
                Some(s) => self@.as_text() == Some(s@),
                None => self@.as_text() is None,
            },
    {
        match self {
            JsonValue::Text(s) => Some(s.as_str()),
            _ => None,
        }
    }

    /// The value of a non-negative integer.
    pub fn as_u64(&self) -> (r: Option<u64>)
        ensures
            r == self@.as_unsigned(),
    {
        match self {
            JsonValue::Number(JsonNumber::Unsigned(n)) => Some(*n),
            _ => None,
        }
    }

    /// The text of the member named `key`, where there is one and it is text.
    pub fn text_at(&self, key: &str) -> (r: Option<&str>)
        ensures
            match r {
                Some(s) => self@.text_at(key@) == Some(s@),
                None => self@.text_at(key@) is None,
            },
    {
        match self.get(key) {
            Some(v) => v.as_str(),
            None => None,
        }
    }

    /// The value of the member named `key`, where there is one and it is a
    /// non-negative integer.
    pub fn unsigned_at(&self, key: &str) -> (r: Option<u64>)
        ensures
            r == self@.unsigned_at(key@),
    {
        match self.get(key) {
            Some(v) => v.as_u64(),
            None => None,
        }
    }
}

impl Clone for JsonValue {
    /// A copy with the same value, member for member.
    fn clone(&self) -> (r: JsonValue)
        ensures
            r@ == self@,
        decreases self,
    {
        match self {
            JsonValue::Null => JsonValue::Null,
            JsonValue::Bool(b) => JsonValue::Bool(*b),
            JsonValue::Number(n) => JsonValue::Number(*n),
            JsonValue::Text(s) => JsonValue::Text(s.clone()),
            JsonValue::Array(items) => {
                let mut out: Vec<JsonValue> = Vec::new();
                let mut i: usize = 0;
                while i < items.len()
                    invariant
                        i <= items.len(),
                        out.len() == i,
                        *self == JsonValue::Array(*items),
                        forall|j: int| 0 <= j < i ==> (#[trigger] out@[j])@ == items@[j]@,
                    decreases items.len() - i,
                {
                    proof {
                        assert(decreases_to!(*self => self->Array_0));
                    }
                    let item: JsonValue = items[i].clone();
                    out.push(item);
                    i = i + 1;
                }
                let r = JsonValue::Array(out);
                assert(r@->Array_0 =~= self@->Array_0);
                r
            },
            JsonValue::Object(fields) => {
                let mut out: Vec<(String, JsonValue)> = Vec::new();
                let mut i: usize = 0;
                while i < fields.len()
                    invariant
                        i <= fields.len(),
                        out.len() == i,
                        *self == JsonValue::Object(*fields),
                        forall|j: int|
                            0 <= j < i ==> (#[trigger] out@[j]).0@ == fields@[j].0@ && out@[j].1@
                                == fields@[j].1@,
                    decreases fields.len() - i,
                {
                    proof {
                        assert(decreases_to!(*self => self->Object_0));
                    }
                    let name: String = fields[i].0.clone();
                    let value: JsonValue = fields[i].1.clone();
                    out.push((name, value));
                    i = i + 1;
                }
                let r = JsonValue::Object(out);
                assert(r@->Object_0 =~= self@->Object_0);
                r
            },
        }
    }
}

} // verus!
