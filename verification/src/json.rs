//! A JSON document as the broker and the JSON-RPC channel carry it,
//! with the spec-level value [`Json`] that contracts speak of.
//!
//! Objects keep their entries in a list; reading a key gives the first
//! entry with that key and writing one replaces that entry or appends a
//! new one, which is how a map with unique keys behaves.

use vstd::prelude::*;
use crate::text::str_eq;

verus! {

broadcast use vstd::string::group_string_axioms;

/// A JSON number: a non-negative integer, a negative integer, or a
/// floating-point number kept as the decimal text it was written with.
pub enum Num {
    PosInt(u64),
    NegInt(i64),
    Float(Seq<char>),
}

/// The mathematical value of a JSON document.
pub enum Json {
    Null,
    Bool(bool),
    Number(Num),
    Str(Seq<char>),
    Arr(Seq<Json>),
    Obj(Seq<(Seq<char>, Json)>),
}

/// The value stored under `key` in a list of object entries: that of the
/// first entry with that key.
pub open spec fn lookup(entries: Seq<(Seq<char>, Json)>, key: Seq<char>) -> Option<Json>
    decreases entries.len(),
{
    if entries.len() == 0 {
        None
    } else if entries[0].0 == key {
        Some(entries[0].1)
    } else {
        lookup(entries.drop_first(), key)
    }
}

/// The entries after `key` is set to `value`: the first entry with that
/// key takes the new value, or a new entry is appended.
pub open spec fn insert(entries: Seq<(Seq<char>, Json)>, key: Seq<char>, value: Json) -> Seq<
    (Seq<char>, Json),
>
    decreases entries.len(),
{
    if entries.len() == 0 {
        seq![(key, value)]
    } else if entries[0].0 == key {
        entries.update(0, (key, value))
    } else {
        seq![entries[0]] + insert(entries.drop_first(), key, value)
    }
}

/// The entries after every entry of `extra` is set in turn.
pub open spec fn insert_all(entries: Seq<(Seq<char>, Json)>, extra: Seq<(Seq<char>, Json)>) -> Seq<
    (Seq<char>, Json),
>
    decreases extra.len(),
{
    if extra.len() == 0 {
        entries
    } else {
        let rest = insert_all(entries, extra.drop_last());
        insert(rest, extra.last().0, extra.last().1)
    }
}

impl Json {
    /// `value.get(key)`: only objects have keys.
    pub open spec fn get(self, key: Seq<char>) -> Option<Json> {
        match self {
            Json::Obj(entries) => lookup(entries, key),
            _ => None,
        }
    }

    pub open spec fn as_str(self) -> Option<Seq<char>> {
        match self {
            Json::Str(s) => Some(s),
            _ => None,
        }
    }

    pub open spec fn as_bool(self) -> Option<bool> {
        match self {
            Json::Bool(b) => Some(b),
            _ => None,
        }
    }

    /// `value.as_i64()`: integers that fit in an `i64`.
    pub open spec fn as_i64(self) -> Option<i64> {
        match self {
            Json::Number(Num::PosInt(n)) => if n <= i64::MAX as u64 {
                Some(n as i64)
            } else {
                None
            },
            Json::Number(Num::NegInt(n)) => Some(n),
            _ => None,
        }
    }

    /// `value.as_u64()`: non-negative integers.
    pub open spec fn as_u64(self) -> Option<u64> {
        match self {
            Json::Number(Num::PosInt(n)) => Some(n),
            _ => None,
        }
    }

    /// `value.get(key).and_then(|v| v.as_str())`.
    pub open spec fn str_at(self, key: Seq<char>) -> Option<Seq<char>> {
        match self.get(key) {
            Some(v) => v.as_str(),
            None => None,
        }
    }

    /// `value.get(key).and_then(|v| v.as_i64())`.
    pub open spec fn i64_at(self, key: Seq<char>) -> Option<i64> {
        match self.get(key) {
            Some(v) => v.as_i64(),
            None => None,
        }
    }

    /// The object's entries, or none for any other value.
    pub open spec fn entries(self) -> Seq<(Seq<char>, Json)> {
        match self {
            Json::Obj(entries) => entries,
            _ => Seq::empty(),
        }
    }
}

/// `json!(i)` for an `i64`.
pub open spec fn json_i64(i: i64) -> Json {
    if i >= 0 {
        Json::Number(Num::PosInt(i as u64))
    } else {
        Json::Number(Num::NegInt(i))
    }
}

/// A JSON number as the program holds it.
#[derive(Clone, Debug, PartialEq)]
pub enum JsonNumber {
    PosInt(u64),
    NegInt(i64),
    Float(String),
}

impl View for JsonNumber {
    type V = Num;

    open spec fn view(&self) -> Num {
        match self {
            JsonNumber::PosInt(n) => Num::PosInt(*n),
            JsonNumber::NegInt(n) => Num::NegInt(*n),
            JsonNumber::Float(t) => Num::Float(t@),
        }
    }
}

/// A JSON document as the program holds it.
#[derive(Debug)]
pub enum JsonValue {
    Null,
    Bool(bool),
    Number(JsonNumber),
    String(String),
    Array(Vec<JsonValue>),
    Object(Vec<(String, JsonValue)>),
}

/// The views of a list of object entries.
pub open spec fn entries_view(entries: Seq<(String, JsonValue)>) -> Seq<(Seq<char>, Json)> {
    Seq::new(entries.len(), |i: int| (entries[i].0@, entries[i].1.json()))
}

impl JsonValue {
    /// The mathematical value of this document.
    pub open spec fn json(self) -> Json
        decreases self,
    {
        match self {
            JsonValue::Null => Json::Null,
            JsonValue::Bool(b) => Json::Bool(b),
            JsonValue::Number(n) => Json::Number(n@),
            JsonValue::String(s) => Json::Str(s@),
            JsonValue::Array(items) => Json::Arr(
                Seq::new(
                    items@.len(),
                    |i: int|
                        if 0 <= i < items@.len() {
                            items@[i].json()
                        } else {
                            Json::Null
                        },
                ),
            ),
            JsonValue::Object(entries) => Json::Obj(
                Seq::new(
                    entries@.len(),
                    |i: int|
                        if 0 <= i < entries@.len() {
                            (entries@[i].0@, entries@[i].1.json())
                        } else {
                            (Seq::empty(), Json::Null)
                        },
                ),
            ),
        }
    }
}

impl View for JsonValue {
    type V = Json;

    open spec fn view(&self) -> Json {
        self.json()
    }
}

proof fn lemma_object_view(entries: Vec<(String, JsonValue)>)
    ensures
        JsonValue::Object(entries)@ == Json::Obj(entries_view(entries@)),
{
    assert(JsonValue::Object(entries)@->Obj_0 =~= entries_view(entries@));
}

proof fn lemma_array_view(items: Vec<JsonValue>)
    ensures
        JsonValue::Array(items)@ == Json::Arr(items@.map_values(|v: JsonValue| v@)),
{
    assert(JsonValue::Array(items)@->Arr_0 =~= items@.map_values(|v: JsonValue| v@));
}

impl JsonValue {
    /// An array of the given items.
    pub fn from_items(items: Vec<JsonValue>) -> (r: JsonValue)
        ensures
            r@ == Json::Arr(items@.map_values(|v: JsonValue| v@)),
    {
        proof {
            lemma_array_view(items);
        }
        JsonValue::Array(items)
    }

    /// An object with no entries.
    pub fn new_object() -> (r: JsonValue)
        ensures
            r@ == Json::Obj(Seq::empty()),
    {
        let v: Vec<(String, JsonValue)> = Vec::new();
        proof {
            lemma_object_view(v);
        }
        assert(entries_view(v@) =~= Seq::<(Seq<char>, Json)>::empty());
        JsonValue::Object(v)
    }

    /// A string value.
    pub fn from_str(s: &str) -> (r: JsonValue)
        ensures
            r@ == Json::Str(s@),
    {
        JsonValue::String(s.to_string())
    }

    /// `json!(i)` for an `i64`.
    pub fn from_i64(i: i64) -> (r: JsonValue)
        ensures
            r@ == json_i64(i),
    {
        if i >= 0 {
            JsonValue::Number(JsonNumber::PosInt(i as u64))
        } else {
            JsonValue::Number(JsonNumber::NegInt(i))
        }
    }

    /// `json!(n)` for a `u64`.
    pub fn from_u64(n: u64) -> (r: JsonValue)
        ensures
            r@ == Json::Number(Num::PosInt(n)),
    {
        JsonValue::Number(JsonNumber::PosInt(n))
    }

    /// Appends the entry `key: value` to an object.
    pub fn push_entry(&mut self, key: &str, value: JsonValue)
        requires
            old(self)@ is Obj,
        ensures
            final(self)@ == Json::Obj(old(self)@.entries().push((key@, value@))),
    {
        match self {
            JsonValue::Object(entries) => {
                proof {
                    lemma_object_view(*entries);
                }
                let ghost before = entries@;
                entries.push((key.to_string(), value));
                proof {
                    lemma_object_view(*entries);
                    assert(entries_view(entries@) =~= entries_view(before).push((key@, value@)));
                }
            },
            _ => {},
        }
    }

    /// Sets `key` to `value` in an object: the entry with that key takes
    /// the new value, or a new entry is appended.
    pub fn insert(&mut self, key: String, value: JsonValue)
        requires
            old(self)@ is Obj,
        ensures
            final(self)@ == Json::Obj(insert(old(self)@.entries(), key@, value@)),
    {
        match self {
            JsonValue::Object(entries) => {
                proof {
                    lemma_object_view(*entries);
                }
                let ghost before = entries_view(entries@);
                match key_index(entries, key.as_str()) {
                    Some(i) => {
                        entries.set(i, (key, value));
                        proof {
                            lemma_insert_at(before, i as int, key@, value@);
                            assert(entries_view(entries@) =~= before.update(
                                i as int,
                                (key@, value@),
                            ));
                            lemma_object_view(*entries);
                        }
                    },
                    None => {
                        entries.push((key, value));
                        proof {
                            lemma_insert_absent(before, key@, value@);
                            assert(entries_view(entries@) =~= before.push((key@, value@)));
                            lemma_object_view(*entries);
                        }
                    },
                }
            },
            _ => {},
        }
    }

    /// `value.get(key)`.
    pub fn get(&self, key: &str) -> (r: Option<&JsonValue>)
        ensures
            r matches Some(v) ==> self@.get(key@) == Some(v@),
            r is None ==> self@.get(key@) is None,
    {
        match self {
            JsonValue::Object(entries) => {
                proof {
                    lemma_object_view(*entries);
                }
                let ghost all = entries_view(entries@);
                match key_index(entries, key) {
                    Some(i) => {
                        proof {
                            lemma_lookup_at(all, i as int, key@);
                            assert(all[i as int].1 == entries@[i as int].1@);
                        }
                        Some(&entries[i].1)
                    },
                    None => {
                        proof {
                            lemma_lookup_absent(all, key@);
                        }
                        None
                    },
                }
            },
            _ => None,
        }
    }

    /// `value.as_str()`.
    pub fn as_str(&self) -> (r: Option<&str>)
        ensures
            r matches Some(s) ==> self@.as_str() == Some(s@),
            r is None ==> self@.as_str() is None,
    {
        match self {
            JsonValue::String(s) => Some(s.as_str()),
            _ => None,
        }
    }

    /// `value.as_bool()`.
    pub fn as_bool(&self) -> (r: Option<bool>)
        ensures
            r == self@.as_bool(),
    {
        match self {
            JsonValue::Bool(b) => Some(*b),
            _ => None,
        }
    }

    /// `value.as_i64()`.
    pub fn as_i64(&self) -> (r: Option<i64>)
        ensures
            r == self@.as_i64(),
    {
        match self {
            JsonValue::Number(JsonNumber::PosInt(n)) => if *n <= 0x7fff_ffff_ffff_ffff {
                Some(*n as i64)
            } else {
                None
            },
            JsonValue::Number(JsonNumber::NegInt(n)) => Some(*n),
            _ => None,
        }
    }

    /// `value.as_u64()`.
    pub fn as_u64(&self) -> (r: Option<u64>)
        ensures
            r == self@.as_u64(),
    {
        match self {
            JsonValue::Number(JsonNumber::PosInt(n)) => Some(*n),
            _ => None,
        }
    }

    /// `value.is_null()`.
    pub fn is_null(&self) -> (r: bool)
        ensures
            r == (self@ is Null),
    {
        match self {
            JsonValue::Null => true,
            _ => false,
        }
    }

    /// `value.is_number()`.
    pub fn is_number(&self) -> (r: bool)
        ensures
            r == (self@ is Number),
    {
        match self {
            JsonValue::Number(_) => true,
            _ => false,
        }
    }

    /// `value.get(key).and_then(|v| v.as_str())`.
    pub fn str_at(&self, key: &str) -> (r: Option<&str>)
        ensures
            r matches Some(s) ==> self@.str_at(key@) == Some(s@),
            r is None ==> self@.str_at(key@) is None,
    {
        match self.get(key) {
            Some(v) => v.as_str(),
            None => None,
        }
    }

    /// `value.get(key).and_then(|v| v.as_i64())`.
    pub fn i64_at(&self, key: &str) -> (r: Option<i64>)
        ensures
            r == self@.i64_at(key@),
    {
        match self.get(key) {
            Some(v) => v.as_i64(),
            None => None,
        }
    }
}

/// The position of the first entry with key `key`.
fn key_index(entries: &Vec<(String, JsonValue)>, key: &str) -> (r: Option<usize>)
    ensures
        r matches Some(i) ==> i < entries@.len() && entries_view(entries@)[i as int].0 == key@
            && forall|j: int| 0 <= j < i ==> entries_view(entries@)[j].0 != key@,
        r is None ==> forall|j: int|
            0 <= j < entries@.len() ==> entries_view(entries@)[j].0 != key@,
{
    let n = entries.len();
    let mut i: usize = 0;
    while i < n
        invariant
            n == entries@.len(),
            0 <= i <= n,
            forall|j: int| 0 <= j < i ==> entries_view(entries@)[j].0 != key@,
        decreases n - i,
    {
        if str_eq(entries[i].0.as_str(), key) {
            return Some(i);
        }
        i = i + 1;
    }
    None
}

/// Reading a key just written gives the value written.
pub proof fn lemma_lookup_insert(entries: Seq<(Seq<char>, Json)>, key: Seq<char>, value: Json)
    ensures
        lookup(insert(entries, key, value), key) == Some(value),
    decreases entries.len(),
{
    if entries.len() > 0 && entries[0].0 != key {
        lemma_lookup_insert(entries.drop_first(), key, value);
        assert((seq![entries[0]] + insert(entries.drop_first(), key, value)).drop_first()
            =~= insert(entries.drop_first(), key, value));
    }
}

/// Writing a key leaves every other key as it was.
pub proof fn lemma_lookup_insert_other(
    entries: Seq<(Seq<char>, Json)>,
    key: Seq<char>,
    value: Json,
    other: Seq<char>,
)
    requires
        other != key,
    ensures
        lookup(insert(entries, key, value), other) == lookup(entries, other),
    decreases entries.len(),
{
    if entries.len() == 0 {
        assert(seq![(key, value)][0] == (key, value));
        assert(seq![(key, value)].drop_first() =~= Seq::<(Seq<char>, Json)>::empty());
        assert(insert(entries, key, value) == seq![(key, value)]);
        assert(lookup(seq![(key, value)], other) == lookup(Seq::<(Seq<char>, Json)>::empty(), other));
    } else {
        if entries[0].0 == key {
            let u = entries.update(0, (key, value));
            assert(u[0].0 == key);
            assert(u.drop_first() =~= entries.drop_first());
            assert(insert(entries, key, value) == u);
            assert(lookup(u, other) == lookup(u.drop_first(), other));
            assert(lookup(entries, other) == lookup(entries.drop_first(), other));
        } else {
            lemma_lookup_insert_other(entries.drop_first(), key, value, other);
            assert((seq![entries[0]] + insert(entries.drop_first(), key, value))[0] == entries[0]);
            assert((seq![entries[0]] + insert(entries.drop_first(), key, value)).drop_first()
                =~= insert(entries.drop_first(), key, value));
        }
    }
}

proof fn lemma_lookup_at(entries: Seq<(Seq<char>, Json)>, i: int, key: Seq<char>)
    requires
        0 <= i < entries.len(),
        entries[i].0 == key,
        forall|j: int| 0 <= j < i ==> entries[j].0 != key,
    ensures
        lookup(entries, key) == Some(entries[i].1),
    decreases i,
{
    if i > 0 {
        lemma_lookup_at(entries.drop_first(), i - 1, key);
    }
}

proof fn lemma_lookup_absent(entries: Seq<(Seq<char>, Json)>, key: Seq<char>)
    requires
        forall|j: int| 0 <= j < entries.len() ==> entries[j].0 != key,
    ensures
        lookup(entries, key) is None,
    decreases entries.len(),
{
    if entries.len() > 0 {
        lemma_lookup_absent(entries.drop_first(), key);
    }
}

proof fn lemma_insert_at(entries: Seq<(Seq<char>, Json)>, i: int, key: Seq<char>, value: Json)
    requires
        0 <= i < entries.len(),
        entries[i].0 == key,
        forall|j: int| 0 <= j < i ==> entries[j].0 != key,
    ensures
        insert(entries, key, value) == entries.update(i, (key, value)),
    decreases i,
{
    if i > 0 {
        lemma_insert_at(entries.drop_first(), i - 1, key, value);
        assert(seq![entries[0]] + entries.drop_first().update(i - 1, (key, value)) =~= entries.update(
            i,
            (key, value),
        ));
    }
}

proof fn lemma_insert_absent(entries: Seq<(Seq<char>, Json)>, key: Seq<char>, value: Json)
    requires
        forall|j: int| 0 <= j < entries.len() ==> entries[j].0 != key,
    ensures
        insert(entries, key, value) == entries.push((key, value)),
    decreases entries.len(),
{
    if entries.len() > 0 {
        lemma_insert_absent(entries.drop_first(), key, value);
        assert(seq![entries[0]] + entries.drop_first().push((key, value)) =~= entries.push(
            (key, value),
        ));
    }
}

} // verus!
