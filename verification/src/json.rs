//! A self-contained JSON value tree.
//!
//! Serialized notification payloads (`Unknown.raw`, `Started.details`,
//! `CrashInfo.details`, tool-call arguments and results) are carried in this
//! type. Objects keep their entries in insertion order; numbers are signed
//! 64-bit integers, which covers every numeric field of the backend schema.

use vstd::prelude::*;

verus! {

/// An owned JSON value. Objects are ordered lists of key/value entries.
#[derive(Debug, PartialEq, Eq)]
pub enum JsonValue {
    Null,
    Bool(bool),
    Int(i64),
    Text(String),
    Arr(Vec<JsonValue>),
    Obj(Vec<(String, JsonValue)>),
}

/// The mathematical shape of a `JsonValue`.
#[verifier::ext_equal]
pub enum JsonData {
    Null,
    Bool(bool),
    Int(int),
    Text(Seq<char>),
    Arr(Seq<JsonData>),
    Obj(Seq<(Seq<char>, JsonData)>),
}

/// The `JsonData` abstraction of a `JsonValue`.
pub open spec fn json_data(v: JsonValue) -> JsonData
    decreases v, 0int,
{
    match v {
        JsonValue::Null => JsonData::Null,
        JsonValue::Bool(b) => JsonData::Bool(b),
        JsonValue::Int(i) => JsonData::Int(i as int),
        JsonValue::Text(s) => JsonData::Text(s@),
        JsonValue::Arr(items) => {
            proof {
                assert(items == v->Arr_0);
                assert(decreases_to!(v, 0int => v->Arr_0, 1int));
            }
            JsonData::Arr(json_data_seq(items@))
        },
        JsonValue::Obj(entries) => {
            proof {
                assert(entries == v->Obj_0);
                assert(decreases_to!(v, 0int => v->Obj_0, 1int));
            }
            JsonData::Obj(json_data_entries(entries@))
        },
    }
}

/// Elementwise `json_data` over a sequence of values.
pub open spec fn json_data_seq(s: Seq<JsonValue>) -> Seq<JsonData>
    decreases s, 1int,
{
    if s.len() == 0 {
        Seq::empty()
    } else {
        json_data_seq(s.drop_last()).push(json_data(s.last()))
    }
}

/// Elementwise `json_data` over a sequence of object entries.
pub open spec fn json_data_entries(s: Seq<(String, JsonValue)>) -> Seq<(Seq<char>, JsonData)>
    decreases s, 1int,
{
    if s.len() == 0 {
        Seq::empty()
    } else {
        json_data_entries(s.drop_last()).push((s.last().0@, json_data(s.last().1)))
    }
}

/// `json_data_seq` maps each element in place.
pub broadcast proof fn json_data_seq_props(s: Seq<JsonValue>)
    ensures
        (#[trigger] json_data_seq(s)).len() == s.len(),
        forall|i: int| 0 <= i < s.len() ==> json_data_seq(s)[i] == json_data(s[i]),
    decreases s.len(),
{
    if s.len() > 0 {
        json_data_seq_props(s.drop_last());
    }
}

/// `json_data_entries` maps each entry in place.
pub broadcast proof fn json_data_entries_props(s: Seq<(String, JsonValue)>)
    ensures
        (#[trigger] json_data_entries(s)).len() == s.len(),
        forall|i: int| 0 <= i < s.len() ==> json_data_entries(s)[i] == (s[i].0@, json_data(
            s[i].1,
        )),
    decreases s.len(),
{
    if s.len() > 0 {
        json_data_entries_props(s.drop_last());
    }
}

impl View for JsonValue {
    type V = JsonData;

    open spec fn view(&self) -> JsonData {
        json_data(*self)
    }
}

impl DeepView for JsonValue {
    type V = JsonData;

    open spec fn deep_view(&self) -> JsonData {
        json_data(*self)
    }
}

impl Clone for JsonValue {
    fn clone(&self) -> (r: Self)
        ensures
            r@ == self@,
    {
        json_clone(self)
    }
}

/// A structural deep copy of a JSON value.
pub fn json_clone(v: &JsonValue) -> (r: JsonValue)
    ensures
        r@ == v@,
    decreases *v,
{
    broadcast use json_data_seq_props, json_data_entries_props;

    match v {
        JsonValue::Null => JsonValue::Null,
        JsonValue::Bool(b) => JsonValue::Bool(*b),
        JsonValue::Int(i) => JsonValue::Int(*i),
        JsonValue::Text(s) => JsonValue::Text(s.clone()),
        JsonValue::Arr(items) => {
            let mut out: Vec<JsonValue> = Vec::new();
            let mut i: usize = 0;
            while i < items.len()
                invariant
                    *v is Arr && v->Arr_0 == *items,
                    i <= items.len(),
                    out@.len() == i as int,
                    forall|j: int| 0 <= j < i ==> out@[j]@ == items@[j]@,
                decreases items.len() - i,
            {
                proof {
                    assert(decreases_to!(*v => v->Arr_0));
                    assert(decreases_to!(v->Arr_0 => items@));
                    assert(decreases_to!(items@ => items@[i as int]));
                }
                out.push(json_clone(&items[i]));
                i = i + 1;
            }
            proof {
                assert(json_data_seq(out@) =~= json_data_seq(items@));
            }
            JsonValue::Arr(out)
        },
        JsonValue::Obj(entries) => {
            let mut out: Vec<(String, JsonValue)> = Vec::new();
            let mut i: usize = 0;
            while i < entries.len()
                invariant
                    *v is Obj && v->Obj_0 == *entries,
                    i <= entries.len(),
                    out@.len() == i as int,
                    forall|j: int| 0 <= j < i ==> out@[j].0@ == entries@[j].0@
                        && out@[j].1@ == entries@[j].1@,
                decreases entries.len() - i,
            {
                proof {
                    assert(decreases_to!(*v => v->Obj_0));
                    assert(decreases_to!(v->Obj_0 => entries@));
                    assert(decreases_to!(entries@ => entries@[i as int]));
                    assert(decreases_to!(entries@[i as int] => entries@[i as int].1));
                }
                out.push((entries[i].0.clone(), json_clone(&entries[i].1)));
                i = i + 1;
            }
            proof {
                assert(json_data_entries(out@) =~= json_data_entries(entries@));
            }
            JsonValue::Obj(out)
        },
    }
}

} // verus!
