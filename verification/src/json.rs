//! A JSON value tree: the raw decoded form a notification arrives in and the
//! form the capability tree is serialized to.  Numbers are modeled as `i128`,
//! which covers every integer the protocol fragment carries; values outside
//! that range (and floating-point numbers) are outside this model.

use vstd::prelude::*;

verus! {

/// An executable JSON value.
#[derive(Debug, PartialEq, Eq)]
pub enum Json {
    Null,
    Bool(bool),
    Int(i128),
    Str(String),
    Arr(Vec<Json>),
    Obj(Vec<(String, Json)>),
}

/// The mathematical model of a JSON value.
#[verifier::ext_equal]
pub enum JsonV {
    Null,
    Bool(bool),
    Int(int),
    Str(Seq<char>),
    Arr(Seq<JsonV>),
    Obj(Seq<(Seq<char>, JsonV)>),
}

pub open spec fn json_view(j: Json) -> JsonV
    decreases j,
{
    match j {
        Json::Null => JsonV::Null,
        Json::Bool(b) => JsonV::Bool(b),
        Json::Int(n) => JsonV::Int(n as int),
        Json::Str(s) => JsonV::Str(s@),
        Json::Arr(items) => JsonV::Arr(json_seq_view(items@)),
        Json::Obj(fields) => JsonV::Obj(json_fields_view(fields@)),
    }
}

pub open spec fn json_seq_view(s: Seq<Json>) -> Seq<JsonV>
    decreases s,
{
    if s.len() == 0 {
        Seq::empty()
    } else {
        json_seq_view(s.drop_last()).push(json_view(s.last()))
    }
}

pub open spec fn json_fields_view(s: Seq<(String, Json)>) -> Seq<(Seq<char>, JsonV)>
    decreases s,
{
    if s.len() == 0 {
        Seq::empty()
    } else {
        json_fields_view(s.drop_last()).push((s.last().0@, json_view(s.last().1)))
    }
}

impl View for Json {
    type V = JsonV;

    open spec fn view(&self) -> JsonV {
        json_view(*self)
    }
}

pub broadcast proof fn lemma_json_seq_view(s: Seq<Json>)
    ensures
        (#[trigger] json_seq_view(s)).len() == s.len(),
        forall|i: int| 0 <= i < s.len() ==> json_seq_view(s)[i] == json_view(s[i]),
    decreases s.len(),
{
    if s.len() > 0 {
        lemma_json_seq_view(s.drop_last());
    }
}

pub broadcast proof fn lemma_json_fields_view(s: Seq<(String, Json)>)
    ensures
        (#[trigger] json_fields_view(s)).len() == s.len(),
        forall|i: int|
            0 <= i < s.len() ==> json_fields_view(s)[i] == (s[i].0@, json_view(s[i].1)),
    decreases s.len(),
{
    if s.len() > 0 {
        lemma_json_fields_view(s.drop_last());
    }
}

pub broadcast proof fn lemma_json_seq_view_push(s: Seq<Json>, x: Json)
    ensures
        json_seq_view(#[trigger] s.push(x)) == json_seq_view(s).push(json_view(x)),
{
    assert(s.push(x).drop_last() =~= s);
    assert(s.push(x).last() == x);
}

pub broadcast proof fn lemma_json_fields_view_push(s: Seq<(String, Json)>, x: (String, Json))
    ensures
        json_fields_view(#[trigger] s.push(x)) == json_fields_view(s).push((x.0@, json_view(x.1))),
{
    assert(s.push(x).drop_last() =~= s);
    assert(s.push(x).last() == x);
}

/// First-match lookup of a key in the field list of a JSON object, the
/// object-member access rule every decoder goes through.
pub open spec fn obj_get(fs: Seq<(Seq<char>, JsonV)>, key: Seq<char>) -> Option<JsonV>
    decreases fs.len(),
{
    if fs.len() == 0 {
        None
    } else if fs[0].0 == key {
        Some(fs[0].1)
    } else {
        obj_get(fs.drop_first(), key)
    }
}

/// How lookup behaves when one more member is appended: an earlier member
/// with the same key still wins; otherwise the new member is found.
pub broadcast proof fn lemma_obj_get_push(
    s: Seq<(Seq<char>, JsonV)>,
    x: (Seq<char>, JsonV),
    k: Seq<char>,
)
    ensures
        #[trigger] obj_get(s.push(x), k) == (match obj_get(s, k) {
            Some(v) => Some(v),
            None => if x.0 == k {
                Some(x.1)
            } else {
                None
            },
        }),
    decreases s.len(),
{
    if s.len() == 0 {
        assert(s.push(x).drop_first() =~= s);
    } else {
        assert(s.push(x).drop_first() =~= s.drop_first().push(x));
        lemma_obj_get_push(s.drop_first(), x, k);
    }
}

proof fn lemma_obj_get_at(fs: Seq<(Seq<char>, JsonV)>, key: Seq<char>, i: int)
    requires
        0 <= i < fs.len(),
        fs[i].0 == key,
        forall|k: int| 0 <= k < i ==> fs[k].0 != key,
    ensures
        obj_get(fs, key) == Some(fs[i].1),
    decreases i,
{
    if i > 0 {
        lemma_obj_get_at(fs.drop_first(), key, i - 1);
    }
}

proof fn lemma_obj_get_none(fs: Seq<(Seq<char>, JsonV)>, key: Seq<char>)
    requires
        forall|k: int| 0 <= k < fs.len() ==> fs[k].0 != key,
    ensures
        obj_get(fs, key) is None,
    decreases fs.len(),
{
    if fs.len() > 0 {
        lemma_obj_get_none(fs.drop_first(), key);
    }
}

/// Looks a key up in an object's field list; the first matching member wins,
/// exactly as `obj_get` states.
#[verifier::loop_isolation(false)]
pub fn get_field<'a>(fields: &'a Vec<(String, Json)>, key: &String) -> (r: Option<&'a Json>)
    ensures
        match r {
            Some(v) => obj_get(json_fields_view(fields@), key@) == Some(v@),
            None => obj_get(json_fields_view(fields@), key@) is None,
        },
{
    proof {
        lemma_json_fields_view(fields@);
    }
    let mut i: usize = 0;
    while i < fields.len()
        invariant
            0 <= i <= fields.len(),
            forall|k: int| 0 <= k < i ==> fields@[k].0@ != key@,
        decreases fields.len() - i,
    {
        if fields[i].0 == *key {
            proof {
                lemma_obj_get_at(json_fields_view(fields@), key@, i as int);
            }
            return Some(&fields[i].1);
        }
        i += 1;
    }
    proof {
        lemma_obj_get_none(json_fields_view(fields@), key@);
    }
    None
}

impl Clone for Json {
    /// A deep copy: the copy's model is the original's.
    #[verifier::loop_isolation(false)]
    fn clone(&self) -> (res: Self)
        ensures
            res@ == self@,
        decreases *self,
    {
        match self {
            Json::Null => Json::Null,
            Json::Bool(b) => Json::Bool(*b),
            Json::Int(n) => Json::Int(*n),
            Json::Str(s) => Json::Str(s.clone()),
            Json::Arr(items) => {
                let mut out: Vec<Json> = Vec::new();
                let mut i: usize = 0;
                while i < items.len()
                    invariant
                        0 <= i <= items.len(),
                        json_seq_view(out@) == json_seq_view(items@.take(i as int)),
                    decreases items.len() - i,
                {
                    proof {
                        assert(decreases_to!(*self => *items));
                        assert(decreases_to!(*items => items@));
                        assert(decreases_to!(items@ => items@[i as int]));
                        assert(items@.take(i as int + 1).drop_last() =~= items@.take(i as int));
                        assert(items@.take(i as int + 1).last() == items@[i as int]);
                    }
                    let c = items[i].clone();
                    let ghost prev = out@;
                    out.push(c);
                    proof {
                        assert(out@.drop_last() =~= prev);
                        assert(json_seq_view(out@) == json_seq_view(prev).push(json_view(c)));
                    }
                    i += 1;
                }
                proof {
                    assert(items@.take(items@.len() as int) =~= items@);
                }
                Json::Arr(out)
            },
            Json::Obj(fields) => {
                let mut out: Vec<(String, Json)> = Vec::new();
                let mut i: usize = 0;
                while i < fields.len()
                    invariant
                        0 <= i <= fields.len(),
                        json_fields_view(out@) == json_fields_view(fields@.take(i as int)),
                    decreases fields.len() - i,
                {
                    proof {
                        assert(decreases_to!(*self => *fields));
                        assert(decreases_to!(*fields => fields@));
                        assert(decreases_to!(fields@ => fields@[i as int]));
                        assert(decreases_to!(fields@[i as int] => fields@[i as int].1));
                        assert(fields@.take(i as int + 1).drop_last() =~= fields@.take(i as int));
                        assert(fields@.take(i as int + 1).last() == fields@[i as int]);
                    }
                    let k = fields[i].0.clone();
                    let v = fields[i].1.clone();
                    let ghost prev = out@;
                    out.push((k, v));
                    proof {
                        assert(out@.drop_last() =~= prev);
                        assert(json_fields_view(out@) == json_fields_view(prev).push(
                            (k@, json_view(v)),
                        ));
                    }
                    i += 1;
                }
                proof {
                    assert(fields@.take(fields@.len() as int) =~= fields@);
                }
                Json::Obj(out)
            },
        }
    }
}

} // verus!
