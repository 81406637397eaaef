//! Decoding machinery shared by every record of the data model.
//!
//! Each wire type implements [`JsonCodec`]: a shape predicate saying which
//! JSON fragments it decodes from, a field relation pinning the decoded value
//! down, and the decoder itself, which succeeds exactly on fragments of the
//! right shape. Records that keep unrecognized keys implement [`KnownKeys`]
//! and collect the leftover pairs with [`collect_extra`].

use vstd::prelude::*;
use vstd::string::StrSliceExecFns;

use crate::json::{jget, arr_elems, obj_pairs, pairs_view, Json, JsonV};

verus! {

/// A wire schema: how a value is read off a JSON fragment.
///
/// `catchall` is the configuration switch for the catch-all extension: when
/// set, records with a catch-all bag keep every unrecognized key; when clear,
/// unrecognized keys are dropped and bags stay empty.
pub trait JsonCodec: Sized {
    /// Whether a JSON fragment has the shape this type decodes from.
    spec fn shape(j: JsonV, catchall: bool) -> bool;

    /// How a decoded value's fields relate to the fragment it came from.
    spec fn fields(j: JsonV, v: Self, catchall: bool) -> bool;

    /// Decode a value from a fragment; succeeds exactly on the right shapes.
    fn from_json(j: &Json, catchall: bool) -> (r: Option<Self>)
        ensures
            (r is Some) == Self::shape(j@, catchall),
            r matches Some(v) ==> Self::fields(j@, v, catchall);
}

impl JsonCodec for bool {
    open spec fn shape(j: JsonV, catchall: bool) -> bool {
        j is Bool
    }

    open spec fn fields(j: JsonV, v: Self, catchall: bool) -> bool {
        j == JsonV::Bool(v)
    }

    fn from_json(j: &Json, catchall: bool) -> (r: Option<Self>) {
        match j {
            Json::Bool(b) => Some(*b),
            _ => None,
        }
    }
}

impl JsonCodec for u8 {
    open spec fn shape(j: JsonV, catchall: bool) -> bool {
        j matches JsonV::Int(i) && 0 <= i <= u8::MAX
    }

    open spec fn fields(j: JsonV, v: Self, catchall: bool) -> bool {
        j == JsonV::Int(v as int)
    }

    fn from_json(j: &Json, catchall: bool) -> (r: Option<Self>) {
        match j {
            Json::Int(i) => {
                if 0 <= *i && *i <= u8::MAX as i64 {
                    Some(*i as u8)
                } else {
                    None
                }
            },
            _ => None,
        }
    }
}

impl JsonCodec for u16 {
    open spec fn shape(j: JsonV, catchall: bool) -> bool {
        j matches JsonV::Int(i) && 0 <= i <= u16::MAX
    }

    open spec fn fields(j: JsonV, v: Self, catchall: bool) -> bool {
        j == JsonV::Int(v as int)
    }

    fn from_json(j: &Json, catchall: bool) -> (r: Option<Self>) {
        match j {
            Json::Int(i) => {
                if 0 <= *i && *i <= u16::MAX as i64 {
                    Some(*i as u16)
                } else {
                    None
                }
            },
            _ => None,
        }
    }
}

impl JsonCodec for u32 {
    open spec fn shape(j: JsonV, catchall: bool) -> bool {
        j matches JsonV::Int(i) && 0 <= i <= u32::MAX
    }

    open spec fn fields(j: JsonV, v: Self, catchall: bool) -> bool {
        j == JsonV::Int(v as int)
    }

    fn from_json(j: &Json, catchall: bool) -> (r: Option<Self>) {
        match j {
            Json::Int(i) => {
                if 0 <= *i && *i <= u32::MAX as i64 {
                    Some(*i as u32)
                } else {
                    None
                }
            },
            _ => None,
        }
    }
}

impl JsonCodec for i32 {
    open spec fn shape(j: JsonV, catchall: bool) -> bool {
        j matches JsonV::Int(i) && i32::MIN <= i <= i32::MAX
    }

    open spec fn fields(j: JsonV, v: Self, catchall: bool) -> bool {
        j == JsonV::Int(v as int)
    }

    fn from_json(j: &Json, catchall: bool) -> (r: Option<Self>) {
        match j {
            Json::Int(i) => {
                if i32::MIN as i64 <= *i && *i <= i32::MAX as i64 {
                    Some(*i as i32)
                } else {
                    None
                }
            },
            _ => None,
        }
    }
}

impl JsonCodec for i64 {
    open spec fn shape(j: JsonV, catchall: bool) -> bool {
        j matches JsonV::Int(i) && i64::MIN <= i <= i64::MAX
    }

    open spec fn fields(j: JsonV, v: Self, catchall: bool) -> bool {
        j == JsonV::Int(v as int)
    }

    fn from_json(j: &Json, catchall: bool) -> (r: Option<Self>) {
        match j {
            Json::Int(i) => Some(*i),
            _ => None,
        }
    }
}

impl JsonCodec for String {
    open spec fn shape(j: JsonV, catchall: bool) -> bool {
        j is Str
    }

    open spec fn fields(j: JsonV, v: Self, catchall: bool) -> bool {
        j == JsonV::Str(v@)
    }

    fn from_json(j: &Json, catchall: bool) -> (r: Option<Self>) {
        match j {
            Json::Str(s) => Some(s.clone()),
            _ => None,
        }
    }
}

impl JsonCodec for char {
    open spec fn shape(j: JsonV, catchall: bool) -> bool {
        j matches JsonV::Str(s) && s.len() == 1
    }

    open spec fn fields(j: JsonV, v: Self, catchall: bool) -> bool {
        j == JsonV::Str(seq![v])
    }

    fn from_json(j: &Json, catchall: bool) -> (r: Option<Self>) {
        match j {
            Json::Str(s) => {
                if s.as_str().unicode_len() == 1 {
                    let c = s.as_str().get_char(0);
                    proof {
                        assert(s@ =~= seq![c]);
                    }
                    Some(c)
                } else {
                    None
                }
            },
            _ => None,
        }
    }
}

impl JsonCodec for () {
    open spec fn shape(j: JsonV, catchall: bool) -> bool {
        j is Null
    }

    open spec fn fields(j: JsonV, v: Self, catchall: bool) -> bool {
        j is Null
    }

    fn from_json(j: &Json, catchall: bool) -> (r: Option<Self>) {
        match j {
            Json::Null => Some(()),
            _ => None,
        }
    }
}

impl<T: JsonCodec> JsonCodec for Vec<T> {
    open spec fn shape(j: JsonV, catchall: bool) -> bool {
        &&& j is Arr
        &&& forall|i: int|
            0 <= i < arr_elems(j).len() ==> T::shape(#[trigger] arr_elems(j)[i], catchall)
    }

    open spec fn fields(j: JsonV, v: Self, catchall: bool) -> bool {
        &&& v@.len() == arr_elems(j).len()
        &&& forall|i: int|
            0 <= i < v@.len() ==> T::fields(arr_elems(j)[i], #[trigger] v@[i], catchall)
    }

    fn from_json(j: &Json, catchall: bool) -> (r: Option<Self>) {
        let elems = match j.as_arr() {
            Some(es) => es,
            None => {
                return None;
            },
        };
        let mut out: Vec<T> = Vec::new();
        let mut i: usize = 0;
        while i < elems.len()
            invariant
                j@ is Arr,
                arr_elems(j@).len() == elems@.len(),
                forall|m: int| 0 <= m < elems@.len() ==> arr_elems(j@)[m] == #[trigger] elems@[m]@,
                i <= elems@.len(),
                out@.len() == i,
                forall|m: int| 0 <= m < i ==> T::shape(#[trigger] arr_elems(j@)[m], catchall),
                forall|m: int|
                    0 <= m < i ==> T::fields(arr_elems(j@)[m], #[trigger] out@[m], catchall),
            decreases elems@.len() - i,
        {
            match T::from_json(&elems[i], catchall) {
                Some(v) => out.push(v),
                None => {
                    return None;
                },
            }
            proof {
                assert(arr_elems(j@)[i as int] == elems@[i as int]@);
                assert(T::shape(arr_elems(j@)[i as int], catchall));
                assert(T::fields(arr_elems(j@)[i as int], out@[i as int], catchall));
            }
            i = i + 1;
        }
        Some(out)
    }
}

/// Whether an object carries a key whose value decodes as `T`.
pub open spec fn req_shape<T: JsonCodec>(j: JsonV, k: Seq<char>, catchall: bool) -> bool {
    jget(j, k) matches Some(x) && T::shape(x, catchall)
}

/// How a required field's decoded value relates to the object.
pub open spec fn req_field<T: JsonCodec>(j: JsonV, k: Seq<char>, v: T, catchall: bool) -> bool {
    jget(j, k) matches Some(x) && T::fields(x, v, catchall)
}

/// Whether a key is absent, `null`, or decodable as `T`.
pub open spec fn opt_shape<T: JsonCodec>(j: JsonV, k: Seq<char>, catchall: bool) -> bool {
    match jget(j, k) {
        Option::None => true,
        Option::Some(JsonV::Null) => true,
        Option::Some(x) => T::shape(x, catchall),
    }
}

/// How an optional field's decoded value relates to the object: absent and
/// `null` keys yield `None`, anything else decodes as `T`.
pub open spec fn opt_field<T: JsonCodec>(j: JsonV, k: Seq<char>, v: Option<T>, catchall: bool) -> bool {
    match jget(j, k) {
        Option::None => v is None,
        Option::Some(JsonV::Null) => v is None,
        Option::Some(x) => v matches Some(w) && T::fields(x, w, catchall),
    }
}

/// Decode a required field of an object.
pub fn get_req<T: JsonCodec>(j: &Json, k: &str, catchall: bool) -> (r: Option<T>)
    ensures
        (r is Some) == req_shape::<T>(j@, k@, catchall),
        r matches Some(v) ==> req_field::<T>(j@, k@, v, catchall),
{
    match j.get(k) {
        Some(x) => T::from_json(x, catchall),
        None => None,
    }
}

/// Decode an optional field of an object; absent and `null` keys give `None`.
pub fn get_opt<T: JsonCodec>(j: &Json, k: &str, catchall: bool) -> (r: Option<Option<T>>)
    ensures
        (r is Some) == opt_shape::<T>(j@, k@, catchall),
        r matches Some(v) ==> opt_field::<T>(j@, k@, v, catchall),
{
    match j.get(k) {
        None => Some(None),
        Some(x) => {
            if x.is_null() {
                Some(None)
            } else {
                match T::from_json(x, catchall) {
                    Some(w) => Some(Some(w)),
                    None => None,
                }
            }
        },
    }
}

/// A wire schema that can be written back: the canonical encoding of a
/// value, against which its encoder is verified.
pub trait ToJson: Sized {
    /// The canonical encoding of a value.
    spec fn spec_json(v: Self) -> JsonV;

    /// Encode a value back to a JSON fragment.
    fn to_json(&self) -> (r: Json)
        ensures
            r@ == Self::spec_json(*self);
}

impl ToJson for bool {
    open spec fn spec_json(v: Self) -> JsonV {
        JsonV::Bool(v)
    }

    fn to_json(&self) -> (r: Json) {
        Json::Bool(*self)
    }
}

impl ToJson for String {
    open spec fn spec_json(v: Self) -> JsonV {
        JsonV::Str(v@)
    }

    fn to_json(&self) -> (r: Json) {
        Json::Str(self.clone())
    }
}

impl<T: ToJson> ToJson for Vec<T> {
    open spec fn spec_json(v: Self) -> JsonV {
        JsonV::Arr(
            Seq::new(
                v@.len(),
                |i: int| if 0 <= i < v@.len() { T::spec_json(v@[i]) } else { JsonV::Null },
            ),
        )
    }

    fn to_json(&self) -> (r: Json) {
        let mut out: Vec<Json> = Vec::new();
        let mut i: usize = 0;
        while i < self.len()
            invariant
                i <= self@.len(),
                out@.len() == i,
                forall|m: int| 0 <= m < i ==> #[trigger] out@[m]@ == T::spec_json(self@[m]),
            decreases self@.len() - i,
        {
            let e = self[i].to_json();
            out.push(e);
            i = i + 1;
        }
        let r = Json::Arr(out);
        proof {
            assert forall|m: int|
                0 <= m < self@.len() implies arr_elems(r@)[m] == arr_elems(
                Self::spec_json(*self),
            )[m] by {
                assert(out@[m]@ == T::spec_json(self@[m]));
            }
            assert(arr_elems(r@).len() == arr_elems(Self::spec_json(*self)).len());
            assert(arr_elems(r@) =~= arr_elems(Self::spec_json(*self)));
            assert(r@ =~= Self::spec_json(*self));
        }
        r
    }
}

/// The encoding of an optional string field: `null` when unset.
pub open spec fn opt_str_json(o: Option<String>) -> JsonV {
    match o {
        Option::Some(s) => JsonV::Str(s@),
        Option::None => JsonV::Null,
    }
}

/// The encoding of an optional unsigned field: `null` when unset.
pub open spec fn opt_u32_json(o: Option<u32>) -> JsonV {
    match o {
        Option::Some(n) => JsonV::Int(n as int),
        Option::None => JsonV::Null,
    }
}

/// Whether a fragment is a number of either representation.
pub open spec fn is_num(j: JsonV) -> bool {
    j is Int || j is Num
}

/// The decimal text of a numeric fragment.
pub open spec fn num_text(j: JsonV) -> Seq<char> {
    match j {
        JsonV::Int(i) => crate::decimal::int_dec_str(i),
        JsonV::Num(s) => s,
        _ => Seq::empty(),
    }
}

/// Whether an object carries a numeric key.
pub open spec fn numtext_shape(j: JsonV, k: Seq<char>) -> bool {
    jget(j, k) matches Some(x) && is_num(x)
}

/// How a numeric field kept as text relates to the object.
pub open spec fn numtext_field(j: JsonV, k: Seq<char>, v: Seq<char>) -> bool {
    jget(j, k) matches Some(x) && v == num_text(x)
}

/// Read a required numeric field of an object as its decimal text.
pub fn get_numtext(j: &Json, k: &str) -> (r: Option<String>)
    ensures
        (r is Some) == numtext_shape(j@, k@),
        r matches Some(v) ==> numtext_field(j@, k@, v@),
{
    match j.get(k) {
        Some(x) => match x {
            Json::Int(i) => Some(crate::decimal::i64_string(*i)),
            Json::Num(s) => Some(s.clone()),
            _ => None,
        },
        None => None,
    }
}

/// The pairs of an object not claimed by a record's named fields.
pub open spec fn strays(j: JsonV, known: spec_fn(Seq<char>) -> bool) -> Seq<(Seq<char>, JsonV)> {
    obj_pairs(j).filter(|p: (Seq<char>, JsonV)| !known(p.0))
}

/// How a record's catch-all bag relates to the object it was decoded from.
pub open spec fn bag_ok(
    j: JsonV,
    extra: Seq<(String, Json)>,
    catchall: bool,
    known: spec_fn(Seq<char>) -> bool,
) -> bool {
    if catchall {
        pairs_view(extra) == strays(j, known)
    } else {
        extra.len() == 0
    }
}

/// A record owning a catch-all bag, and the keys its named fields claim.
pub trait KnownKeys: Sized {
    /// Whether a key belongs to a named field of the record (or of a record
    /// flattened into it).
    spec fn known(k: Seq<char>) -> bool;

    /// The runtime test for [`KnownKeys::known`].
    fn known_key(k: &str) -> (b: bool)
        ensures
            b == Self::known(k@);
}

/// Collect the pairs of an object not claimed by `T`'s named fields.
pub fn collect_extra<T: KnownKeys>(j: &Json, catchall: bool) -> (r: Vec<(String, Json)>)
    ensures
        bag_ok(j@, r@, catchall, |k: Seq<char>| T::known(k)),
{
    let ghost pred = |p: (Seq<char>, JsonV)| !(|k: Seq<char>| T::known(k))(p.0);
    let mut out: Vec<(String, Json)> = Vec::new();
    if !catchall {
        return out;
    }
    let ps = match j.as_obj() {
        Some(ps) => ps,
        None => {
            proof {
                reveal(Seq::filter);
                assert(pairs_view(out@) =~= obj_pairs(j@).filter(pred));
            }
            return out;
        },
    };
    let mut i: usize = 0;
    proof {
        reveal(Seq::filter);
        assert(obj_pairs(j@).take(0) =~= Seq::empty());
        assert(pairs_view(out@) =~= obj_pairs(j@).take(0).filter(pred));
    }
    while i < ps.len()
        invariant
            (pred == (|p: (Seq<char>, JsonV)| !(|k: Seq<char>| T::known(k))(p.0))),
            j@ == JsonV::Obj(pairs_view(ps@)),
            i <= ps@.len(),
            pairs_view(out@) == obj_pairs(j@).take(i as int).filter(pred),
        decreases ps@.len() - i,
    {
        let ghost prefix = obj_pairs(j@).take(i as int);
        let ghost longer = obj_pairs(j@).take(i as int + 1);
        proof {
            reveal(Seq::filter);
            assert(longer.drop_last() =~= prefix);
            assert(longer.last() == obj_pairs(j@)[i as int]);
            assert(obj_pairs(j@)[i as int].0 == ps@[i as int].0@);
        }
        if !T::known_key(ps[i].0.as_str()) {
            let k = ps[i].0.clone();
            let v = ps[i].1.deep_clone();
            out.push((k, v));
            proof {
                reveal(Seq::filter);
                assert(pairs_view(out@) =~= prefix.filter(pred).push(obj_pairs(j@)[i as int]));
                assert(longer.filter(pred) == prefix.filter(pred).push(longer.last()));
                assert(pairs_view(out@) =~= longer.filter(pred));
            }
        } else {
            proof {
                reveal(Seq::filter);
                assert(longer.filter(pred) == prefix.filter(pred));
                assert(pairs_view(out@) =~= longer.filter(pred));
            }
        }
        i = i + 1;
    }
    proof {
        assert(obj_pairs(j@).take(ps@.len() as int) =~= obj_pairs(j@));
    }
    out
}

} // verus!
