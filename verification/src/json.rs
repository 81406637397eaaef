//! The JSON value tree that every response body is decoded from.
//!
//! [`Json`] is the executable wire model; its view [`JsonV`] is the
//! mathematical model that all decoding contracts are stated over. Numbers
//! that fit an `i64` are held as integers; any other numeric literal is kept
//! verbatim as its decimal text in [`Json::Num`], so that nothing on the wire
//! is lost.

use vstd::prelude::*;
use vstd::string::StrSliceExecFns;

verus! {

/// A JSON document or fragment.
#[derive(Debug, PartialEq)]
pub enum Json {
    /// `null`.
    Null,
    /// `true` or `false`.
    Bool(bool),
    /// A number representable as a 64-bit signed integer.
    Int(i64),
    /// Any other numeric literal, kept as its decimal text.
    Num(String),
    /// A string.
    Str(String),
    /// An array.
    Arr(Vec<Json>),
    /// An object: a key-value list in wire order.
    Obj(Vec<(String, Json)>),
}

/// The mathematical model of a JSON value.
#[verifier::ext_equal]
pub enum JsonV {
    /// `null`.
    Null,
    /// A boolean.
    Bool(bool),
    /// An integer number.
    Int(int),
    /// A non-integer numeric literal, as its decimal text.
    Num(Seq<char>),
    /// A string.
    Str(Seq<char>),
    /// An array.
    Arr(Seq<JsonV>),
    /// An object: a key-value list in wire order.
    Obj(Seq<(Seq<char>, JsonV)>),
}

/// The abstraction of a list of executable key-value pairs.
pub open spec fn pairs_view(o: Seq<(String, Json)>) -> Seq<(Seq<char>, JsonV)> {
    Seq::new(o.len(), |i: int| if 0 <= i < o.len() { (o[i].0@, json_view(o[i].1)) } else { (Seq::empty(), JsonV::Null) })
}

/// The abstraction of an executable JSON value.
pub open spec fn json_view(j: Json) -> JsonV
    decreases j,
{
    match j {
        Json::Null => JsonV::Null,
        Json::Bool(b) => JsonV::Bool(b),
        Json::Int(i) => JsonV::Int(i as int),
        Json::Num(s) => JsonV::Num(s@),
        Json::Str(s) => JsonV::Str(s@),
        Json::Arr(a) => JsonV::Arr(
            Seq::new(a@.len(), |i: int| if 0 <= i < a@.len() { json_view(a@[i]) } else { JsonV::Null }),
        ),
        Json::Obj(o) => JsonV::Obj(
            Seq::new(
                o@.len(),
                |i: int| if 0 <= i < o@.len() { (o@[i].0@, json_view(o@[i].1)) } else { (Seq::empty(), JsonV::Null) },
            ),
        ),
    }
}

impl View for Json {
    type V = JsonV;

    open spec fn view(&self) -> JsonV {
        json_view(*self)
    }
}

/// The elements of an array; the empty list for any other value.
pub open spec fn arr_elems(j: JsonV) -> Seq<JsonV> {
    match j {
        JsonV::Arr(es) => es,
        _ => Seq::empty(),
    }
}

/// The key-value pairs of an object; the empty list for any other value.
pub open spec fn obj_pairs(j: JsonV) -> Seq<(Seq<char>, JsonV)> {
    match j {
        JsonV::Obj(ps) => ps,
        _ => Seq::empty(),
    }
}

/// The value under the first occurrence of a key in a pair list.
pub open spec fn pairs_lookup(ps: Seq<(Seq<char>, JsonV)>, k: Seq<char>) -> Option<JsonV>
    decreases ps.len(),
{
    if ps.len() == 0 {
        None
    } else if ps[0].0 == k {
        Some(ps[0].1)
    } else {
        pairs_lookup(ps.skip(1), k)
    }
}

/// The value under a key of an object; `None` when the key is absent or the
/// value is no object at all.
pub open spec fn jget(j: JsonV, k: Seq<char>) -> Option<JsonV> {
    match j {
        JsonV::Obj(ps) => pairs_lookup(ps, k),
        _ => None,
    }
}

/// Whether an object carries a key.
pub open spec fn has_key(j: JsonV, k: Seq<char>) -> bool {
    jget(j, k) is Some
}

/// Looking a key up skips any leading pairs whose keys all differ from it.
proof fn lemma_pairs_lookup_skip(ps: Seq<(Seq<char>, JsonV)>, k: Seq<char>, i: int)
    requires
        0 <= i < ps.len(),
        ps[i].0 != k,
    ensures
        pairs_lookup(ps.skip(i), k) == pairs_lookup(ps.skip(i + 1), k),
{
    assert(ps.skip(i).len() > 0);
    assert(ps.skip(i)[0] == ps[i]);
    assert(ps.skip(i).skip(1) =~= ps.skip(i + 1));
}

/// Looking up the key of the first pair yields that pair's value.
pub proof fn lemma_lookup_first(ps: Seq<(Seq<char>, JsonV)>, k: Seq<char>)
    requires
        ps.len() > 0,
        ps[0].0 == k,
    ensures
        pairs_lookup(ps, k) == Some(ps[0].1),
{
}

/// Looking up a key the first pair does not carry continues in the rest.
pub proof fn lemma_lookup_rest(ps: Seq<(Seq<char>, JsonV)>, k: Seq<char>)
    requires
        ps.len() > 0,
        ps[0].0 != k,
    ensures
        pairs_lookup(ps, k) == pairs_lookup(ps.skip(1), k),
{
}

/// A key has a value in a pair list exactly when some pair carries it.
pub proof fn lemma_lookup_some_iff_contains(ps: Seq<(Seq<char>, JsonV)>, k: Seq<char>)
    ensures
        (pairs_lookup(ps, k) is Some) <==> exists|i: int| 0 <= i < ps.len() && ps[i].0 == k,
    decreases ps.len(),
{
    if ps.len() == 0 {
    } else if ps[0].0 == k {
        assert(ps[0].0 == k);
    } else {
        lemma_lookup_some_iff_contains(ps.skip(1), k);
        if pairs_lookup(ps.skip(1), k) is Some {
            let i = choose|i: int| 0 <= i < ps.skip(1).len() && ps.skip(1)[i].0 == k;
            assert(ps.skip(1)[i] == ps[i + 1]);
            assert(ps[i + 1].0 == k);
        }
        if exists|i: int| 0 <= i < ps.len() && ps[i].0 == k {
            let i = choose|i: int| 0 <= i < ps.len() && ps[i].0 == k;
            assert(i != 0);
            assert(ps.skip(1)[i - 1] == ps[i]);
        }
    }
}

/// Whether two string slices hold the same characters.
pub fn str_eq(a: &str, b: &str) -> (r: bool)
    ensures
        r == (a@ == b@),
{
    let an = a.unicode_len();
    let bn = b.unicode_len();
    if an != bn {
        return false;
    }
    let mut i: usize = 0;
    while i < an
        invariant
            an == a@.len(),
            bn == b@.len(),
            an == bn,
            i <= an,
            forall|m: int| 0 <= m < i ==> a@[m] == b@[m],
        decreases an - i,
    {
        if a.get_char(i) != b.get_char(i) {
            return false;
        }
        i = i + 1;
    }
    proof {
        assert(a@ =~= b@);
    }
    true
}

impl Json {
    /// The value under a key, when this value is an object bearing it.
    pub fn get<'a>(&'a self, key: &str) -> (r: Option<&'a Json>)
        ensures
            match r {
                Some(v) => jget(self@, key@) == Some(v@),
                None => jget(self@, key@) is None,
            },
    {
        match self {
            Json::Obj(ps) => {
                let ghost pv = obj_pairs(self@);
                proof {
                    assert(pv.skip(0) =~= pv);
                }
                let mut i: usize = 0;
                while i < ps.len()
                    invariant
                        *self == Json::Obj(*ps),
                        pv == obj_pairs(self@),
                        pv == pairs_view(ps@),
                        i <= ps.len(),
                        pairs_lookup(pv.skip(i as int), key@) == pairs_lookup(pv, key@),
                    decreases ps.len() - i,
                {
                    if str_eq(ps[i].0.as_str(), key) {
                        proof {
                            assert(pv.skip(i as int)[0] == pv[i as int]);
                        }
                        return Some(&ps[i].1);
                    }
                    proof {
                        lemma_pairs_lookup_skip(pv, key@, i as int);
                    }
                    i = i + 1;
                }
                proof {
                    assert(pv.skip(ps.len() as int).len() == 0);
                }
                None
            },
            _ => None,
        }
    }

    /// Whether this value is `null`.
    pub fn is_null(&self) -> (r: bool)
        ensures
            r == (self@ is Null),
    {
        matches!(self, Json::Null)
    }

    /// Whether this value is an object.
    pub fn is_obj(&self) -> (r: bool)
        ensures
            r == (self@ is Obj),
    {
        matches!(self, Json::Obj(_))
    }

    /// The pair list, when this value is an object.
    pub fn as_obj<'a>(&'a self) -> (r: Option<&'a Vec<(String, Json)>>)
        ensures
            match r {
                Some(v) => self@ == JsonV::Obj(pairs_view(v@)),
                None => !(self@ is Obj),
            },
    {
        match self {
            Json::Obj(ps) => {
                proof {
                    assert(obj_pairs(self@) =~= pairs_view(ps@));
                    assert(self@ =~= JsonV::Obj(pairs_view(ps@)));
                }
                Some(ps)
            },
            _ => None,
        }
    }

    /// The element list, when this value is an array.
    pub fn as_arr<'a>(&'a self) -> (r: Option<&'a Vec<Json>>)
        ensures
            match r {
                Some(v) => {
                    &&& self@ is Arr
                    &&& arr_elems(self@).len() == v@.len()
                    &&& forall|i: int| 0 <= i < v@.len() ==> arr_elems(self@)[i] == #[trigger] v@[i]@
                },
                None => !(self@ is Arr),
            },
    {
        match self {
            Json::Arr(a) => Some(a),
            _ => None,
        }
    }

    /// A duplicate of the value, equal in its abstraction.
    pub fn deep_clone(&self) -> (r: Json)
        ensures
            r@ == self@,
        decreases *self,
    {
        match self {
            Json::Null => Json::Null,
            Json::Bool(b) => Json::Bool(*b),
            Json::Int(i) => Json::Int(*i),
            Json::Num(s) => Json::Num(s.clone()),
            Json::Str(s) => Json::Str(s.clone()),
            Json::Arr(a) => {
                let mut out: Vec<Json> = Vec::new();
                let mut i: usize = 0;
                while i < a.len()
                    invariant
                        *self == Json::Arr(*a),
                        i <= a.len(),
                        out@.len() == i,
                        forall|m: int| 0 <= m < i ==> #[trigger] out@[m]@ == a@[m]@,
                    decreases a.len() - i,
                {
                    proof {
                        assert(decreases_to!(*self => self->Arr_0));
                        assert(decreases_to!(*a => a@));
                        assert(decreases_to!(a@ => a@[i as int]));
                    }
                    let d = a[i].deep_clone();
                    out.push(d);
                    i = i + 1;
                }
                let r = Json::Arr(out);
                proof {
                    assert forall|m: int| 0 <= m < a@.len() implies arr_elems(r@)[m] == arr_elems(self@)[m] by {
                        assert(out@[m]@ == a@[m]@);
                    }
                    assert(arr_elems(r@) =~= arr_elems(self@));
                    assert(r@ =~= self@);
                }
                r
            },
            Json::Obj(o) => {
                let mut out: Vec<(String, Json)> = Vec::new();
                let mut i: usize = 0;
                while i < o.len()
                    invariant
                        *self == Json::Obj(*o),
                        i <= o.len(),
                        out@.len() == i,
                        forall|m: int| 0 <= m < i ==> #[trigger] out@[m].0@ == o@[m].0@,
                        forall|m: int| 0 <= m < i ==> #[trigger] out@[m].1@ == o@[m].1@,
                    decreases o.len() - i,
                {
                    proof {
                        assert(decreases_to!(*self => self->Obj_0));
                        assert(decreases_to!(*o => o@));
                        assert(decreases_to!(o@ => o@[i as int]));
                        assert(decreases_to!(o@[i as int] => o@[i as int].1));
                    }
                    let d = o[i].1.deep_clone();
                    let k = o[i].0.clone();
                    out.push((k, d));
                    i = i + 1;
                }
                let r = Json::Obj(out);
                proof {
                    assert forall|m: int| 0 <= m < o@.len() implies obj_pairs(r@)[m] == obj_pairs(self@)[m] by {
                        assert(out@[m].0@ == o@[m].0@ && out@[m].1@ == o@[m].1@);
                    }
                    assert(obj_pairs(r@) =~= obj_pairs(self@));
                    assert(r@ =~= self@);
                }
                r
            },
        }
    }
}

impl Clone for Json {
    /// A duplicate of the value, equal in its abstraction.
    fn clone(&self) -> (r: Json)
        ensures
            r@ == self@,
    {
        self.deep_clone()
    }
}

} // verus!
