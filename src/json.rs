//! A JSON document tree that the library reads and edits, and its
//! mathematical model.
use vstd::prelude::*;
use vstd::string::*;

verus! {

broadcast use {vstd::std_specs::vec::group_vec_axioms, vstd::seq::axiom_seq_index_decreases};

/// A JSON value. Numbers keep their textual form, so that a document passes
/// through an edit without any change to the numbers it holds.
#[derive(Debug, PartialEq)]
pub enum Json {
    Null,
    Bool(bool),
    Number(String),
    Str(String),
    Array(Vec<Json>),
    Object(Vec<(String, Json)>),
}

/// The model of a [`Json`] value: text as character sequences, an object as
/// the sequence of its entries in document order.
pub enum JsonV {
    Null,
    Bool(bool),
    Number(Seq<char>),
    Str(Seq<char>),
    Array(Seq<JsonV>),
    Object(Seq<(Seq<char>, JsonV)>),
}

pub open spec fn json_view(j: &Json) -> JsonV
    decreases j,
{

    match j {
        Json::Null => JsonV::Null,
        Json::Bool(b) => JsonV::Bool(*b),
        Json::Number(n) => JsonV::Number(n@),
        Json::Str(s) => JsonV::Str(s@),
        Json::Array(items) => JsonV::Array(
            Seq::new(
                items@.len(),
                |i: int|
                    if 0 <= i < items@.len() {
                        json_view(&items@[i])
                    } else {
                        JsonV::Null
                    },
            ),
        ),
        Json::Object(entries) => JsonV::Object(
            Seq::new(
                entries@.len(),
                |i: int|
                    if 0 <= i < entries@.len() {
                        (entries@[i].0@, json_view(&entries@[i].1))
                    } else {
                        (Seq::empty(), JsonV::Null)
                    },
            ),
        ),
    }
}

impl View for Json {
    type V = JsonV;

    open spec fn view(&self) -> JsonV {
        json_view(self)
    }
}

} // verus!

verus! {

/// The model of an object's entries.
pub open spec fn entries_view(e: Seq<(String, Json)>) -> Seq<(Seq<char>, JsonV)> {
    Seq::new(e.len(), |i: int| (e[i].0@, e[i].1@))
}

/// The value stored under `key`: the first entry with that key, as a JSON
/// object with a repeated key is read by the first one.
pub open spec fn lookup(e: Seq<(Seq<char>, JsonV)>, key: Seq<char>) -> Option<JsonV>
    decreases e.len(),
{
    if e.len() == 0 {
        None
    } else if e[0].0 == key {
        Some(e[0].1)
    } else {
        lookup(e.drop_first(), key)
    }
}

/// The entries with `key` set to `v`: the first entry with that key has its
/// value replaced in place; without one, the entry is added at the end.
pub open spec fn upsert(e: Seq<(Seq<char>, JsonV)>, key: Seq<char>, v: JsonV) -> Seq<
    (Seq<char>, JsonV),
>
    decreases e.len(),
{
    if e.len() == 0 {
        seq![(key, v)]
    } else if e[0].0 == key {
        e.update(0, (key, v))
    } else {
        seq![e[0]] + upsert(e.drop_first(), key, v)
    }
}

pub proof fn lemma_object_view(e: Vec<(String, Json)>)
    ensures
        Json::Object(e)@ == JsonV::Object(entries_view(e@)),
{
    let j = Json::Object(e);
    assert(json_view(&j) is Object);
    assert(json_view(&j)->Object_0 =~= entries_view(e@));
}

/// Where the first entry with `key` stands at `i`, the lookup finds it and
/// the update replaces it there.
pub proof fn lemma_first_key(e: Seq<(Seq<char>, JsonV)>, key: Seq<char>, i: int, v: JsonV)
    requires
        0 <= i < e.len(),
        e[i].0 == key,
        forall|j: int| 0 <= j < i ==> e[j].0 != key,
    ensures
        lookup(e, key) == Some(e[i].1),
        upsert(e, key, v) == e.update(i, (key, v)),
    decreases e.len(),
{
    if i > 0 {
        let t = e.drop_first();
        assert(e[0].0 != key);
        assert forall|j: int| 0 <= j < i - 1 implies t[j].0 != key by {
            assert(t[j] == e[j + 1]);
        }
        lemma_first_key(t, key, i - 1, v);
        assert(upsert(e, key, v) =~= e.update(i, (key, v)));
    }
}

/// Where no entry has `key`, the lookup finds nothing and the update adds
/// the entry at the end.
pub proof fn lemma_absent_key(e: Seq<(Seq<char>, JsonV)>, key: Seq<char>, v: JsonV)
    requires
        forall|j: int| 0 <= j < e.len() ==> e[j].0 != key,
    ensures
        lookup(e, key) is None,
        upsert(e, key, v) == e.push((key, v)),
    decreases e.len(),
{
    if e.len() > 0 {
        let t = e.drop_first();
        assert(e[0].0 != key);
        assert forall|j: int| 0 <= j < t.len() implies t[j].0 != key by {
            assert(t[j] == e[j + 1]);
        }
        lemma_absent_key(t, key, v);
        assert(upsert(e, key, v) =~= e.push((key, v)));
    }
}

/// After an update, `key` holds the new value.
pub proof fn lemma_upsert_same(e: Seq<(Seq<char>, JsonV)>, key: Seq<char>, v: JsonV)
    ensures
        lookup(upsert(e, key, v), key) == Some(v),
    decreases e.len(),
{
    if e.len() > 0 && e[0].0 != key {
        lemma_upsert_same(e.drop_first(), key, v);
        assert((seq![e[0]] + upsert(e.drop_first(), key, v)).drop_first() =~= upsert(
            e.drop_first(),
            key,
            v,
        ));
    }
}

/// An update of `key` leaves every other key as it was.
pub proof fn lemma_upsert_other(
    e: Seq<(Seq<char>, JsonV)>,
    key: Seq<char>,
    v: JsonV,
    other: Seq<char>,
)
    requires
        other != key,
    ensures
        lookup(upsert(e, key, v), other) == lookup(e, other),
    decreases e.len(),
{
    if e.len() == 0 {
        let one = seq![(key, v)];
        assert(one.drop_first() =~= Seq::<(Seq<char>, JsonV)>::empty());
        assert(lookup(one.drop_first(), other) is None);
        assert(lookup(one, other) == lookup(one.drop_first(), other));
    } else if e[0].0 == key {
        let u = e.update(0, (key, v));
        assert(u.drop_first() =~= e.drop_first());
        assert(lookup(u, other) == lookup(u.drop_first(), other));
    } else {
        lemma_upsert_other(e.drop_first(), key, v, other);
        assert((seq![e[0]] + upsert(e.drop_first(), key, v))[0] == e[0]);
        assert((seq![e[0]] + upsert(e.drop_first(), key, v)).drop_first() =~= upsert(
            e.drop_first(),
            key,
            v,
        ));
    }
}

/// An update of `key` keeps every entry with another key at its place, and
/// drops none.
pub proof fn lemma_upsert_keeps(e: Seq<(Seq<char>, JsonV)>, key: Seq<char>, v: JsonV)
    ensures
        upsert(e, key, v).len() >= e.len(),
        forall|i: int| 0 <= i < e.len() && e[i].0 != key ==> upsert(e, key, v)[i] == e[i],
    decreases e.len(),
{
    if e.len() > 0 && e[0].0 != key {
        let t = e.drop_first();
        lemma_upsert_keeps(t, key, v);
        let u = seq![e[0]] + upsert(t, key, v);
        assert forall|i: int| 0 <= i < e.len() && e[i].0 != key implies u[i] == e[i] by {
            if i > 0 {
                assert(t[i - 1] == e[i]);
            }
        }
    }
}

/// The index of the first entry with `key`, or the number of entries where
/// none has it.
pub fn position(entries: &Vec<(String, Json)>, key: &String) -> (r: usize)
    ensures
        r <= entries@.len(),
        r < entries@.len() ==> entries@[r as int].0@ == key@,
        forall|j: int| 0 <= j < r ==> entries@[j].0@ != key@,
{
    let mut i: usize = 0;
    while i < entries.len()
        invariant
            i <= entries@.len(),
            forall|j: int| 0 <= j < i ==> entries@[j].0@ != key@,
        decreases entries@.len() - i,
    {
        if entries[i].0 == *key {
            return i;
        }
        i = i + 1;
    }
    i
}

/// Sets `key` to `value` in an object's entries, as [`upsert`] states.
pub fn set_entry(entries: &mut Vec<(String, Json)>, key: String, value: Json)
    ensures
        entries_view(final(entries)@) == upsert(entries_view(old(entries)@), key@, value@),
{
    let ghost e = entries_view(entries@);
    let i = position(entries, &key);
    if i < entries.len() {
        proof {
            assert forall|j: int| 0 <= j < i implies e[j].0 != key@ by {}
            lemma_first_key(e, key@, i as int, value@);
        }
        entries.remove(i);
        entries.insert(i, (key, value));
        assert(entries_view(entries@) =~= e.update(i as int, (key@, value@)));
    } else {
        proof {
            lemma_absent_key(e, key@, value@);
        }
        entries.push((key, value));
        assert(entries_view(entries@) =~= e.push((key@, value@)));
    }
}

} // verus!
