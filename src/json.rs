//! The JSON values that both protocols read and build.
use vstd::prelude::*;

verus! {

/// A JSON value. A number keeps its JSON text, so that every number passes
/// through the library unchanged.
#[derive(Debug, PartialEq)]
pub enum Json {
    Null,
    Bool(bool),
    Number(String),
    Str(String),
    Array(Vec<Json>),
    Object(Vec<(String, Json)>),
}

/// The value stored under `key` in an object's entries: that of the first
/// entry with that key.
pub open spec fn lookup(entries: Seq<(String, Json)>, key: Seq<char>) -> Option<Json>
    decreases entries.len(),
{
    if entries.len() == 0 {
        None
    } else if entries[0].0@ == key {
        Some(entries[0].1)
    } else {
        lookup(entries.drop_first(), key)
    }
}

/// The position of the first entry with `key`.
pub open spec fn key_position(entries: Seq<(String, Json)>, key: Seq<char>) -> Option<int>
    decreases entries.len(),
{
    if entries.len() == 0 {
        None
    } else if entries[0].0@ == key {
        Some(0)
    } else {
        match key_position(entries.drop_first(), key) {
            Some(i) => Some(i + 1),
            None => None,
        }
    }
}

/// `key_position` finds the entry that `lookup` returns.
pub proof fn lemma_key_position(entries: Seq<(String, Json)>, key: Seq<char>)
    ensures
        key_position(entries, key) matches Some(i) ==> 0 <= i < entries.len() && entries[i].0@
            == key && lookup(entries, key) == Some(entries[i].1) && forall|j: int|
            0 <= j < i ==> #[trigger] entries[j].0@ != key,
        key_position(entries, key) is None ==> lookup(entries, key) is None && forall|j: int|
            0 <= j < entries.len() ==> #[trigger] entries[j].0@ != key,
    decreases entries.len(),
{
    if entries.len() > 0 && entries[0].0@ != key {
        lemma_key_position(entries.drop_first(), key);
        assert forall|j: int| 1 <= j < entries.len() implies entries[j] == entries.drop_first()[j
            - 1] by {}
    }
}

/// The object with exactly these entries: `(k0, v0)`, then `(k1, v1)`.
pub open spec fn is_pair_object(j: Json, k0: Seq<char>, v0: Json, k1: Seq<char>, v1: Json) -> bool {
    &&& j matches Json::Object(e)
    &&& e@.len() == 2
    &&& e@[0].0@ == k0
    &&& e@[0].1 == v0
    &&& e@[1].0@ == k1
    &&& e@[1].1 == v1
}

/// The object with one entry, `(k, v)`.
pub open spec fn is_single_object(j: Json, k: Seq<char>, v: Json) -> bool {
    &&& j matches Json::Object(e)
    &&& e@.len() == 1
    &&& e@[0].0@ == k
    &&& e@[0].1 == v
}

/// The position of the first entry whose key is `key`.
pub fn find_key(entries: &Vec<(String, Json)>, key: &str) -> (r: Option<usize>)
    ensures
        r matches Some(i) ==> key_position(entries@, key@) == Some(i as int),
        r is None ==> key_position(entries@, key@) is None,
{
    let wanted = key.to_string();
    let mut i: usize = 0;
    while i < entries.len()
        invariant
            i <= entries@.len(),
            wanted@ == key@,
            forall|j: int| 0 <= j < i ==> #[trigger] entries@[j].0@ != key@,
        decreases entries@.len() - i,
    {
        if entries[i].0 == wanted {
            proof {
                lemma_position_of_first(entries@, key@, i as int);
            }
            return Some(i);
        }
        i = i + 1;
    }
    proof {
        lemma_position_of_first(entries@, key@, entries@.len() as int);
    }
    None
}

/// With no entry before `i` holding `key`, the first one with `key` is `i`
/// where `i` holds it, and there is none where `i` is the end.
proof fn lemma_position_of_first(entries: Seq<(String, Json)>, key: Seq<char>, i: int)
    requires
        0 <= i <= entries.len(),
        forall|j: int| 0 <= j < i ==> #[trigger] entries[j].0@ != key,
        i < entries.len() ==> entries[i].0@ == key,
    ensures
        i < entries.len() ==> key_position(entries, key) == Some(i),
        i == entries.len() ==> key_position(entries, key) is None,
    decreases i,
{
    if entries.len() > 0 && i > 0 {
        assert forall|j: int| 0 <= j < i - 1 implies #[trigger] entries.drop_first()[j].0@
            != key by {
            assert(entries.drop_first()[j] == entries[j + 1]);
        }
        lemma_position_of_first(entries.drop_first(), key, i - 1);
    }
}

/// Takes the value stored under `key` out of an object's entries, leaving
/// the other entries in order.
pub fn take_field(entries: &mut Vec<(String, Json)>, key: &str) -> (r: Option<Json>)
    ensures
        r == lookup(old(entries)@, key@),
        key_position(old(entries)@, key@) matches Some(i) ==> final(entries)@ == old(
            entries,
        )@.remove(i),
        key_position(old(entries)@, key@) is None ==> final(entries)@ == old(entries)@,
{
    proof {
        lemma_key_position(entries@, key@);
    }
    match find_key(entries, key) {
        Some(i) => {
            let (_, v) = entries.remove(i);
            Some(v)
        },
        None => None,
    }
}

/// A JSON string holding `s`.
pub fn text(s: &str) -> (r: Json)
    ensures
        r matches Json::Str(t) && t@ == s@,
{
    Json::Str(s.to_string())
}

/// The object with the one entry `(key, value)`.
pub fn single(key: &str, value: Json) -> (r: Json)
    ensures
        is_single_object(r, key@, value),
{
    let mut e: Vec<(String, Json)> = Vec::new();
    e.push((key.to_string(), value));
    Json::Object(e)
}

/// The object with the entries `(k0, v0)` and `(k1, v1)`, in that order.
pub fn pair(k0: &str, v0: Json, k1: &str, v1: Json) -> (r: Json)
    ensures
        is_pair_object(r, k0@, v0, k1@, v1),
{
    let mut e: Vec<(String, Json)> = Vec::new();
    e.push((k0.to_string(), v0));
    e.push((k1.to_string(), v1));
    Json::Object(e)
}

/// The value of field `key` when `j` is an object.
pub open spec fn field(j: Json, key: Seq<char>) -> Option<Json> {
    match j {
        Json::Object(e) => lookup(e@, key),
        _ => None,
    }
}

/// The entry at `i` is what `key` looks up where no earlier entry has that
/// key.
pub proof fn lemma_lookup_at(e: Seq<(String, Json)>, i: int, key: Seq<char>)
    requires
        0 <= i < e.len(),
        e[i].0@ == key,
        forall|j: int| 0 <= j < i ==> #[trigger] e[j].0@ != key,
    ensures
        lookup(e, key) == Some(e[i].1),
{
    lemma_position_of_first(e, key, i);
    lemma_key_position(e, key);
}

/// Adds the entry `(key, value)` at the end of an object's entries.
pub fn push_entry(entries: &mut Vec<(String, Json)>, key: &str, value: Json)
    ensures
        final(entries)@.len() == old(entries)@.len() + 1,
        final(entries)@.drop_last() == old(entries)@,
        final(entries)@.last().0@ == key@,
        final(entries)@.last().1 == value,
{
    entries.push((key.to_string(), value));
    assert(entries@.drop_last() =~= old(entries)@);
}

/// A two-entry object with different keys looks up each entry.
pub proof fn lemma_pair_fields(j: Json, k0: Seq<char>, v0: Json, k1: Seq<char>, v1: Json)
    requires
        is_pair_object(j, k0, v0, k1, v1),
        k0 != k1,
    ensures
        field(j, k0) == Some(v0),
        field(j, k1) == Some(v1),
{
    let e = j->Object_0@;
    lemma_lookup_at(e, 0, k0);
    lemma_lookup_at(e, 1, k1);
}

/// A one-entry object looks up its entry.
pub proof fn lemma_single_field(j: Json, k: Seq<char>, v: Json)
    requires
        is_single_object(j, k, v),
    ensures
        field(j, k) == Some(v),
{
    lemma_lookup_at(j->Object_0@, 0, k);
}

/// The object with the entries `(k0, v0)`, `(k1, v1)` and `(k2, v2)`.
pub fn object3(k0: &str, v0: Json, k1: &str, v1: Json, k2: &str, v2: Json) -> (r: Json)
    requires
        k0@ != k1@,
        k0@ != k2@,
        k1@ != k2@,
    ensures
        r is Object,
        field(r, k0@) == Some(v0),
        field(r, k1@) == Some(v1),
        field(r, k2@) == Some(v2),
{
    let mut e: Vec<(String, Json)> = Vec::new();
    e.push((k0.to_string(), v0));
    e.push((k1.to_string(), v1));
    e.push((k2.to_string(), v2));
    proof {
        lemma_lookup_at(e@, 0, k0@);
        lemma_lookup_at(e@, 1, k1@);
        lemma_lookup_at(e@, 2, k2@);
    }
    Json::Object(e)
}

/// The object with the entries `(k0, v0)` to `(k3, v3)`.
pub fn object4(k0: &str, v0: Json, k1: &str, v1: Json, k2: &str, v2: Json, k3: &str, v3: Json) -> (r: Json)
    requires
        k0@ != k1@,
        k0@ != k2@,
        k0@ != k3@,
        k1@ != k2@,
        k1@ != k3@,
        k2@ != k3@,
    ensures
        r is Object,
        field(r, k0@) == Some(v0),
        field(r, k1@) == Some(v1),
        field(r, k2@) == Some(v2),
        field(r, k3@) == Some(v3),
{
    let mut e: Vec<(String, Json)> = Vec::new();
    e.push((k0.to_string(), v0));
    e.push((k1.to_string(), v1));
    e.push((k2.to_string(), v2));
    e.push((k3.to_string(), v3));
    proof {
        lemma_lookup_at(e@, 0, k0@);
        lemma_lookup_at(e@, 1, k1@);
        lemma_lookup_at(e@, 2, k2@);
        lemma_lookup_at(e@, 3, k3@);
    }
    Json::Object(e)
}

/// The object without entries.
pub fn empty_object() -> (r: Json)
    ensures
        r matches Json::Object(e) && e@.len() == 0,
{
    Json::Object(Vec::new())
}

} // verus!
