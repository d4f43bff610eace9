//! The JSON value model: an executable tree type `Json`, its mathematical
//! view `JsonV`, and the lookup and copying operations the handlers use.

use vstd::prelude::*;

verus! {

/// An executable JSON value. A number is kept as the decimal token that
/// denotes it, so the tree holds plain values only.
#[derive(Debug, PartialEq)]
pub enum Json {
    Null,
    Bool(bool),
    Num(String),
    Str(String),
    Arr(Vec<Json>),
    Obj(Vec<(String, Json)>),
}

/// The mathematical shape of a JSON value: strings as character sequences,
/// arrays and objects as sequences.
#[verifier::ext_equal]
pub enum JsonV {
    Null,
    Bool(bool),
    Num(Seq<char>),
    Str(Seq<char>),
    Arr(Seq<JsonV>),
    Obj(Seq<(Seq<char>, JsonV)>),
}

pub open spec fn view_json(j: Json) -> JsonV
    decreases j via view_json_decreases
{
    match j {
        Json::Null => JsonV::Null,
        Json::Bool(b) => JsonV::Bool(b),
        Json::Num(s) => JsonV::Num(s@),
        Json::Str(s) => JsonV::Str(s@),
        Json::Arr(v) => JsonV::Arr(views_of(v@)),
        Json::Obj(v) => JsonV::Obj(fields_of(v@)),
    }
}

/// The views of the elements of an array, in order.
pub open spec fn views_of(s: Seq<Json>) -> Seq<JsonV>
    decreases s via views_of_decreases
{
    if s.len() == 0 {
        Seq::empty()
    } else {
        seq![view_json(s[0])] + views_of(s.subrange(1, s.len() as int))
    }
}

/// The views of the fields of an object, in order.
pub open spec fn fields_of(s: Seq<(String, Json)>) -> Seq<(Seq<char>, JsonV)>
    decreases s via fields_of_decreases
{
    if s.len() == 0 {
        Seq::empty()
    } else {
        seq![(s[0].0@, view_json(s[0].1))] + fields_of(s.subrange(1, s.len() as int))
    }
}

#[via_fn]
proof fn view_json_decreases(j: Json) {
    match j {
        Json::Arr(v) => {
            assert(decreases_to!(j => v));
            assert(decreases_to!(v => v@));
        }
        Json::Obj(v) => {
            assert(decreases_to!(j => v));
            assert(decreases_to!(v => v@));
        }
        _ => {}
    }
}

#[via_fn]
proof fn views_of_decreases(s: Seq<Json>) {
    if s.len() > 0 {
        assert(decreases_to!(s => s[0]));
        assert(decreases_to!(s => s.subrange(1, s.len() as int)));
    }
}

#[via_fn]
proof fn fields_of_decreases(s: Seq<(String, Json)>) {
    if s.len() > 0 {
        assert(decreases_to!(s => s[0]));
        assert(decreases_to!(s[0] => s[0].1));
        assert(decreases_to!(s => s.subrange(1, s.len() as int)));
    }
}

impl View for Json {
    type V = JsonV;

    open spec fn view(&self) -> JsonV {
        view_json(*self)
    }
}

/// `views_of` maps each element to its view.
pub broadcast proof fn lemma_views_of(s: Seq<Json>)
    ensures
        (#[trigger] views_of(s)).len() == s.len(),
        forall|i: int| 0 <= i < s.len() ==> views_of(s)[i] == view_json(#[trigger] s[i]),
    decreases s.len(),
{
    if s.len() > 0 {
        let tail = s.subrange(1, s.len() as int);
        lemma_views_of(tail);
        assert forall|i: int| 0 <= i < s.len() implies views_of(s)[i] == view_json(#[trigger] s[i]) by {
            if i > 0 {
                assert(tail[i - 1] == s[i]);
                assert(views_of(s)[i] == views_of(tail)[i - 1]);
            }
        }
    }
}

/// `fields_of` maps each field to its key's characters and its value's view.
pub broadcast proof fn lemma_fields_of(s: Seq<(String, Json)>)
    ensures
        (#[trigger] fields_of(s)).len() == s.len(),
        forall|i: int| 0 <= i < s.len() ==> fields_of(s)[i] == ((#[trigger] s[i]).0@, view_json(s[i].1)),
    decreases s.len(),
{
    if s.len() > 0 {
        let tail = s.subrange(1, s.len() as int);
        lemma_fields_of(tail);
        assert forall|i: int| 0 <= i < s.len() implies fields_of(s)[i] == ((#[trigger] s[i]).0@,
            view_json(s[i].1)) by {
            if i > 0 {
                assert(tail[i - 1] == s[i]);
                assert(fields_of(s)[i] == fields_of(tail)[i - 1]);
            }
        }
    }
}

/// The views of a sequence of JSON values, in order.
pub open spec fn jsons_view(s: Seq<Json>) -> Seq<JsonV> {
    Seq::new(s.len(), |i: int| view_json(s[i]))
}

/// The value of the first field named `key`, if any.
pub open spec fn obj_get(fields: Seq<(String, Json)>, key: Seq<char>) -> Option<Json>
    decreases fields.len(),
{
    if fields.len() == 0 {
        None
    } else if fields[0].0@ == key {
        Some(fields[0].1)
    } else {
        obj_get(fields.subrange(1, fields.len() as int), key)
    }
}

/// The value of the first field named `key` of an object view, if any.
pub open spec fn vobj_get(fields: Seq<(Seq<char>, JsonV)>, key: Seq<char>) -> Option<JsonV>
    decreases fields.len(),
{
    if fields.len() == 0 {
        None
    } else if fields[0].0 == key {
        Some(fields[0].1)
    } else {
        vobj_get(fields.subrange(1, fields.len() as int), key)
    }
}

/// Looking a key up in an object and in its view agree.
pub broadcast proof fn lemma_obj_get_view(fields: Seq<(String, Json)>, key: Seq<char>)
    ensures
        match #[trigger] obj_get(fields, key) {
            Some(j) => vobj_get(fields_of(fields), key) == Some(view_json(j)),
            None => vobj_get(fields_of(fields), key) is None,
        },
    decreases fields.len(),
{
    lemma_fields_of(fields);
    if fields.len() > 0 {
        let tail = fields.subrange(1, fields.len() as int);
        lemma_obj_get_view(tail, key);
        lemma_fields_of(tail);
        assert(fields_of(fields)[0] == (fields[0].0@, view_json(fields[0].1)));
        assert(fields_of(fields).subrange(1, fields_of(fields).len() as int) =~= fields_of(tail));
    }
}

/// The first field named `key`, found by a scan in order.
pub fn lookup_field<'a>(fields: &'a Vec<(String, Json)>, key: &str) -> (r: Option<&'a Json>)
    ensures
        match r {
            Some(v) => obj_get(fields@, key@) == Some(*v),
            None => obj_get(fields@, key@) is None,
        },
{
    let n = fields.len();
    let mut i: usize = 0;
    proof {
        assert(fields@.subrange(0, n as int) =~= fields@);
    }
    while i < n
        invariant
            n == fields@.len(),
            i <= n,
            obj_get(fields@, key@) == obj_get(fields@.subrange(i as int, n as int), key@),
        decreases n - i,
    {
        let ghost rest = fields@.subrange(i as int, n as int);
        if crate::text::str_eq(fields[i].0.as_str(), key) {
            proof {
                assert(rest[0] == fields@[i as int]);
            }
            return Some(&fields[i].1);
        }
        proof {
            assert(rest[0] == fields@[i as int]);
            assert(rest.subrange(1, rest.len() as int) =~= fields@.subrange(
                i + 1,
                n as int,
            ));
        }
        i = i + 1;
    }
    None
}

/// An exact copy of a JSON value.
#[verifier::loop_isolation(false)]
pub fn json_clone(j: &Json) -> (r: Json)
    ensures
        r@ == j@,
    decreases j,
{
    match j {
        Json::Null => Json::Null,
        Json::Bool(b) => Json::Bool(*b),
        Json::Num(s) => Json::Num(s.clone()),
        Json::Str(s) => Json::Str(s.clone()),
        Json::Arr(v) => {
            proof {
                assert(*v == j->Arr_0);
                assert(decreases_to!(*j => j->Arr_0));
            }
            Json::Arr(clone_values(v))
        }
        Json::Obj(v) => {
            proof {
                assert(*v == j->Obj_0);
                assert(decreases_to!(*j => j->Obj_0));
            }
            Json::Obj(clone_fields(v))
        }
    }
}

/// An exact copy of an array's elements.
#[verifier::loop_isolation(false)]
pub fn clone_values(v: &Vec<Json>) -> (out: Vec<Json>)
    ensures
        views_of(out@) == views_of(v@),
    decreases v,
{
    let mut out: Vec<Json> = Vec::new();
    let n = v.len();
    let mut i: usize = 0;
    while i < n
        invariant
            n == v@.len(),
            i <= n,
            out@.len() == i,
            forall|k: int| 0 <= k < i ==> #[trigger] out@[k]@ == v@[k]@,
        decreases n - i,
    {
        proof {
            assert(decreases_to!(*v => v@));
            assert(decreases_to!(v@ => v@[i as int]));
        }
        let c = json_clone(&v[i]);
        out.push(c);
        i = i + 1;
    }
    proof {
        lemma_views_of(out@);
        lemma_views_of(v@);
        assert forall|k: int| 0 <= k < v@.len() implies views_of(out@)[k] == views_of(v@)[k] by {
            assert(out@[k]@ == v@[k]@);
        }
        assert(views_of(out@) =~= views_of(v@));
    }
    out
}

/// An exact copy of an object's fields.
#[verifier::loop_isolation(false)]
pub fn clone_fields(v: &Vec<(String, Json)>) -> (out: Vec<(String, Json)>)
    ensures
        fields_of(out@) == fields_of(v@),
    decreases v,
{
    let mut out: Vec<(String, Json)> = Vec::new();
    let n = v.len();
    let mut i: usize = 0;
    while i < n
        invariant
            n == v@.len(),
            i <= n,
            out@.len() == i,
            forall|k: int| 0 <= k < i ==> (#[trigger] out@[k]).0@ == v@[k].0@ && out@[k].1@
                == v@[k].1@,
        decreases n - i,
    {
        proof {
            assert(decreases_to!(*v => v@));
            assert(decreases_to!(v@ => v@[i as int]));
            assert(decreases_to!(v@[i as int] => v@[i as int].1));
        }
        let k = v[i].0.clone();
        let c = json_clone(&v[i].1);
        out.push((k, c));
        i = i + 1;
    }
    proof {
        lemma_fields_of(out@);
        lemma_fields_of(v@);
        assert forall|k: int| 0 <= k < v@.len() implies fields_of(out@)[k] == fields_of(v@)[k] by {
            assert(out@[k].0@ == v@[k].0@ && out@[k].1@ == v@[k].1@);
        }
        assert(fields_of(out@) =~= fields_of(v@));
    }
    out
}

} // verus!
