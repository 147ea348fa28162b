//! A plain-value model of JSON documents. The boundary code turns parsed
//! JSON into this shape before any protocol logic runs; numbers that fit
//! `i64` keep their value, any other number keeps its decimal text.

use vstd::prelude::*;

verus! {

use crate::text::{dec_int, i64_to_dec, str_eq};

/// Mathematical mirror of [`JsonValue`].
pub enum JsonVal {
    Null,
    Bool(bool),
    Int(int),
    BigNum(Seq<char>),
    Text(Seq<char>),
    Array(Seq<JsonVal>),
    Object(Seq<(Seq<char>, JsonVal)>),
}

#[derive(Debug)]
pub enum JsonValue {
    Null,
    Bool(bool),
    Int(i64),
    /// A number outside `i64`'s range, kept as its decimal text.
    BigNum(String),
    Text(String),
    Array(Vec<JsonValue>),
    Object(Vec<(String, JsonValue)>),
}

impl View for JsonValue {
    type V = JsonVal;

    open spec fn view(&self) -> JsonVal
        decreases self,
    {
        match self {
            JsonValue::Null => JsonVal::Null,
            JsonValue::Bool(b) => JsonVal::Bool(*b),
            JsonValue::Int(n) => JsonVal::Int(*n as int),
            JsonValue::BigNum(s) => JsonVal::BigNum(s@),
            JsonValue::Text(s) => JsonVal::Text(s@),
            JsonValue::Array(items) => JsonVal::Array(json_views(items@)),
            JsonValue::Object(fields) => JsonVal::Object(json_field_views(fields@)),
        }
    }
}

/// Element-wise view of a list of JSON values.
pub open spec fn json_views(items: Seq<JsonValue>) -> Seq<JsonVal>
    decreases items,
{
    if items.len() == 0 {
        Seq::empty()
    } else {
        seq![items[0]@] + json_views(items.skip(1))
    }
}

/// Element-wise view of an object's fields.
pub open spec fn json_field_views(fields: Seq<(String, JsonValue)>) -> Seq<(Seq<char>, JsonVal)>
    decreases fields,
{
    if fields.len() == 0 {
        Seq::empty()
    } else {
        seq![(fields[0].0@, fields[0].1@)] + json_field_views(fields.skip(1))
    }
}

pub proof fn lemma_json_views(items: Seq<JsonValue>)
    ensures
        json_views(items).len() == items.len(),
        forall|i: int| 0 <= i < items.len() ==> #[trigger] json_views(items)[i] == items[i]@,
    decreases items.len(),
{
    if items.len() > 0 {
        assert(json_views(items) == seq![items[0]@] + json_views(items.skip(1)));
        lemma_json_views(items.skip(1));
        assert forall|i: int| 0 <= i < items.len() implies #[trigger] json_views(items)[i]
            == items[i]@ by {
            if i > 0 {
                assert(json_views(items)[i] == json_views(items.skip(1))[i - 1]);
                assert(items.skip(1)[i - 1] == items[i]);
            }
        }
    }
}

pub proof fn lemma_json_field_views(fields: Seq<(String, JsonValue)>)
    ensures
        json_field_views(fields).len() == fields.len(),
        forall|i: int| 0 <= i < fields.len() ==> #[trigger] json_field_views(fields)[i] == (
            fields[i].0@,
            fields[i].1@,
        ),
    decreases fields.len(),
{
    if fields.len() > 0 {
        assert(json_field_views(fields) == seq![(fields[0].0@, fields[0].1@)]
            + json_field_views(fields.skip(1)));
        lemma_json_field_views(fields.skip(1));
        assert forall|i: int| 0 <= i < fields.len() implies #[trigger] json_field_views(fields)[i]
            == (fields[i].0@, fields[i].1@) by {
            if i > 0 {
                assert(json_field_views(fields)[i] == json_field_views(fields.skip(1))[i - 1]);
                assert(fields.skip(1)[i - 1] == fields[i]);
            }
        }
    }
}

/// Lookup of the first field with the given name.
pub open spec fn obj_lookup(fields: Seq<(Seq<char>, JsonVal)>, key: Seq<char>) -> Option<JsonVal>
    decreases fields.len(),
{
    if fields.len() == 0 {
        None
    } else if fields[0].0 == key {
        Some(fields[0].1)
    } else {
        obj_lookup(fields.skip(1), key)
    }
}

/// Field lookup on an object; anything else has no fields.
pub open spec fn spec_get(v: JsonVal, key: Seq<char>) -> Option<JsonVal> {
    match v {
        JsonVal::Object(fields) => obj_lookup(fields, key),
        _ => None,
    }
}

impl JsonValue {
    pub fn get<'a>(&'a self, key: &str) -> (r: Option<&'a JsonValue>)
        ensures
            match r {
                Some(f) => spec_get(self@, key@) == Some(f@),
                None => spec_get(self@, key@) is None,
            },
    {
        match self {
            JsonValue::Object(fields) => {
                let ghost fs = json_field_views(fields@);
                proof {
                    lemma_json_field_views(fields@);
                }
                let n = fields.len();
                let mut i: usize = 0;
                proof {
                    assert(fs.skip(0) =~= fs);
                }
                while i < n
                    invariant
                        0 <= i <= n,
                        n == fields@.len(),
                        fs == json_field_views(fields@),
                        self@ == JsonVal::Object(fs),
                        fs.len() == n,
                        forall|k: int| 0 <= k < n ==> #[trigger] fs[k] == (
                            fields@[k].0@,
                            fields@[k].1@,
                        ),
                        obj_lookup(fs.skip(i as int), key@) == spec_get(self@, key@),
                    decreases n - i,
                {
                    proof {
                        assert(fs.skip(i as int)[0] == fs[i as int]);
                        assert(fs.skip(i as int).skip(1) =~= fs.skip(i as int + 1));
                    }
                    if str_eq(fields[i].0.as_str(), key) {
                        return Some(&fields[i].1);
                    }
                    i = i + 1;
                }
                proof {
                    assert(fs.skip(n as int) =~= Seq::<(Seq<char>, JsonVal)>::empty());
                }
                None
            },
            _ => None,
        }
    }

    pub fn as_text(&self) -> (r: Option<&String>)
        ensures
            match r {
                Some(s) => self@ == JsonVal::Text(s@),
                None => !(self@ is Text),
            },
    {
        match self {
            JsonValue::Text(s) => Some(s),
            _ => None,
        }
    }

    pub fn as_int(&self) -> (r: Option<i64>)
        ensures
            match r {
                Some(n) => self@ == JsonVal::Int(n as int),
                None => !(self@ is Int),
            },
    {
        match self {
            JsonValue::Int(n) => Some(*n),
            _ => None,
        }
    }

    pub fn as_bool(&self) -> (r: Option<bool>)
        ensures
            match r {
                Some(b) => self@ == JsonVal::Bool(b),
                None => !(self@ is Bool),
            },
    {
        match self {
            JsonValue::Bool(b) => Some(*b),
            _ => None,
        }
    }

    pub fn is_null(&self) -> (r: bool)
        ensures
            r == (self@ is Null),
    {
        match self {
            JsonValue::Null => true,
            _ => false,
        }
    }
}

/// Element-wise decoding of a JSON list: every element must decode.
pub open spec fn spec_decode_list<T>(
    items: Seq<JsonVal>,
    f: spec_fn(JsonVal) -> Option<T>,
) -> Option<Seq<T>>
    decreases items.len(),
{
    if items.len() == 0 {
        Some(Seq::empty())
    } else {
        match (f(items[0]), spec_decode_list(items.skip(1), f)) {
            (Some(x), Some(rest)) => Some(seq![x] + rest),
            _ => None,
        }
    }
}

/// When every element decodes, the list decodes to exactly those elements.
pub proof fn lemma_decode_list_all<T>(
    items: Seq<JsonVal>,
    f: spec_fn(JsonVal) -> Option<T>,
    out: Seq<T>,
)
    requires
        out.len() == items.len(),
        forall|k: int| 0 <= k < items.len() ==> Some(#[trigger] out[k]) == f(items[k]),
    ensures
        spec_decode_list(items, f) == Some(out),
    decreases items.len(),
{
    if items.len() == 0 {
        assert(out =~= Seq::<T>::empty());
    } else {
        lemma_decode_list_all(items.skip(1), f, out.skip(1));
        assert(out =~= seq![out[0]] + out.skip(1));
    }
}

/// When one element fails to decode, the list fails.
pub proof fn lemma_decode_list_element<T>(
    items: Seq<JsonVal>,
    f: spec_fn(JsonVal) -> Option<T>,
    k: int,
)
    requires
        0 <= k < items.len(),
        f(items[k]) is None,
    ensures
        spec_decode_list(items, f) is None,
    decreases items.len(),
{
    if k > 0 {
        lemma_decode_list_element(items.skip(1), f, k - 1);
    }
}


/// Lookup at the first occurrence of a key.
pub proof fn lemma_obj_lookup_at(fields: Seq<(Seq<char>, JsonVal)>, k: int)
    requires
        0 <= k < fields.len(),
        forall|j: int| 0 <= j < k ==> (#[trigger] fields[j]).0 != fields[k].0,
    ensures
        obj_lookup(fields, fields[k].0) == Some(fields[k].1),
    decreases fields.len(),
{
    if k > 0 {
        assert forall|j: int| 0 <= j < k - 1 implies (#[trigger] fields.skip(1)[j]).0
            != fields.skip(1)[k - 1].0 by {
            assert(fields.skip(1)[j] == fields[j + 1]);
            assert(fields.skip(1)[k - 1] == fields[k]);
        }
        assert(fields.skip(1)[k - 1] == fields[k]);
        lemma_obj_lookup_at(fields.skip(1), k - 1);
    }
}

/// Replacing the value at a key's first occurrence changes only that
/// key's lookup.
pub proof fn lemma_obj_lookup_update(fields: Seq<(Seq<char>, JsonVal)>, k: int, w: JsonVal)
    requires
        0 <= k < fields.len(),
        forall|j: int| 0 <= j < k ==> (#[trigger] fields[j]).0 != fields[k].0,
    ensures
        obj_lookup(fields.update(k, (fields[k].0, w)), fields[k].0) == Some(w),
        forall|key: Seq<char>|
            key != fields[k].0 ==> obj_lookup(fields.update(k, (fields[k].0, w)), key)
                == obj_lookup(fields, key),
    decreases fields.len(),
{
    let u = fields.update(k, (fields[k].0, w));
    if k == 0 {
        assert(u[0] == (fields[0].0, w));
        assert(u.skip(1) =~= fields.skip(1));
        assert forall|key: Seq<char>| key != fields[k].0 implies obj_lookup(u, key)
            == obj_lookup(fields, key) by {
            assert(obj_lookup(u, key) == obj_lookup(u.skip(1), key));
            assert(obj_lookup(fields, key) == obj_lookup(fields.skip(1), key));
        }
    } else {
        assert(u[0] == fields[0]);
        assert(u.skip(1) =~= fields.skip(1).update(k - 1, (fields[k].0, w)));
        assert forall|j: int| 0 <= j < k - 1 implies (#[trigger] fields.skip(1)[j]).0
            != fields.skip(1)[k - 1].0 by {
            assert(fields.skip(1)[j] == fields[j + 1]);
            assert(fields.skip(1)[k - 1] == fields[k]);
        }
        assert(fields.skip(1)[k - 1] == fields[k]);
        lemma_obj_lookup_update(fields.skip(1), k - 1, w);
        assert forall|key: Seq<char>| key != fields[k].0 implies obj_lookup(u, key)
            == obj_lookup(fields, key) by {
            if fields[0].0 == key {
            } else {
                assert(obj_lookup(u, key) == obj_lookup(u.skip(1), key));
                assert(obj_lookup(fields, key) == obj_lookup(fields.skip(1), key));
            }
        }
        assert(obj_lookup(u, fields[k].0) == obj_lookup(u.skip(1), fields[k].0)) by {
            assert(fields[0].0 != fields[k].0);
            assert(u[0] == fields[0]);
        }
    }
}

// ---------- tolerant id decoding ----------

/// An id field accepts a number or a string and is canonicalized to text:
/// integers render in decimal, other numbers and strings keep their text.
pub open spec fn spec_id_text(v: JsonVal) -> Option<Seq<char>> {
    match v {
        JsonVal::Int(n) => Some(dec_int(n)),
        JsonVal::BigNum(s) => Some(s),
        JsonVal::Text(s) => Some(s),
        _ => None,
    }
}

pub fn id_text(v: &JsonValue) -> (r: Option<String>)
    ensures
        match r {
            Some(s) => spec_id_text(v@) == Some(s@),
            None => spec_id_text(v@) is None,
        },
{
    match v {
        JsonValue::Int(n) => Some(i64_to_dec(*n)),
        JsonValue::BigNum(s) => Some(s.clone()),
        JsonValue::Text(s) => Some(s.clone()),
        _ => None,
    }
}

/// A numeric id and its decimal text canonicalize to the same id: the
/// decoded protocol cannot tell `42` from `"42"`.
pub proof fn lemma_id_number_text_agree(n: i64, s: Seq<char>)
    requires
        s == dec_int(n as int),
    ensures
        spec_id_text(JsonVal::Int(n as int)) == spec_id_text(JsonVal::Text(s)),
{
}

/// Mandatory id field of an object.
pub open spec fn spec_id_field(v: JsonVal, key: Seq<char>) -> Option<Seq<char>> {
    match spec_get(v, key) {
        Some(f) => spec_id_text(f),
        None => None,
    }
}

pub fn id_field(v: &JsonValue, key: &str) -> (r: Option<String>)
    ensures
        match r {
            Some(s) => spec_id_field(v@, key@) == Some(s@),
            None => spec_id_field(v@, key@) is None,
        },
{
    match v.get(key) {
        Some(f) => id_text(f),
        None => None,
    }
}

/// Optional id field: absent or `null` stays absent, a number or string is
/// canonicalized, anything else is an error.
pub open spec fn spec_opt_id_field(v: JsonVal, key: Seq<char>) -> Result<Option<Seq<char>>, ()> {
    match spec_get(v, key) {
        None => Ok(None),
        Some(JsonVal::Null) => Ok(None),
        Some(f) => match spec_id_text(f) {
            Some(s) => Ok(Some(s)),
            None => Err(()),
        },
    }
}

pub fn opt_id_field(v: &JsonValue, key: &str) -> (r: Result<Option<String>, ()>)
    ensures
        match r {
            Ok(Some(s)) => spec_opt_id_field(v@, key@) == Ok::<Option<Seq<char>>, ()>(
                Some(s@),
            ),
            Ok(None) => spec_opt_id_field(v@, key@) == Ok::<Option<Seq<char>>, ()>(
                None::<Seq<char>>,
            ),
            Err(()) => spec_opt_id_field(v@, key@) is Err,
        },
{
    match v.get(key) {
        None => Ok(None),
        Some(f) => {
            if f.is_null() {
                Ok(None)
            } else {
                match id_text(f) {
                    Some(s) => Ok(Some(s)),
                    None => Err(()),
                }
            }
        },
    }
}

/// Id field that must be present but may be `null`.
pub open spec fn spec_req_opt_id_field(v: JsonVal, key: Seq<char>) -> Result<
    Option<Seq<char>>,
    (),
> {
    match spec_get(v, key) {
        None => Err(()),
        Some(JsonVal::Null) => Ok(None),
        Some(f) => match spec_id_text(f) {
            Some(s) => Ok(Some(s)),
            None => Err(()),
        },
    }
}

pub fn req_opt_id_field(v: &JsonValue, key: &str) -> (r: Result<Option<String>, ()>)
    ensures
        match r {
            Ok(Some(s)) => spec_req_opt_id_field(v@, key@) == Ok::<Option<Seq<char>>, ()>(
                Some(s@),
            ),
            Ok(None) => spec_req_opt_id_field(v@, key@) == Ok::<Option<Seq<char>>, ()>(
                None::<Seq<char>>,
            ),
            Err(()) => spec_req_opt_id_field(v@, key@) is Err,
        },
{
    match v.get(key) {
        None => Err(()),
        Some(f) => {
            if f.is_null() {
                Ok(None)
            } else {
                match id_text(f) {
                    Some(s) => Ok(Some(s)),
                    None => Err(()),
                }
            }
        },
    }
}

// ---------- plain field extraction ----------

/// Mandatory string field of an object.
pub open spec fn spec_str_field(v: JsonVal, key: Seq<char>) -> Option<Seq<char>> {
    match spec_get(v, key) {
        Some(JsonVal::Text(s)) => Some(s),
        _ => None,
    }
}

pub fn str_field(v: &JsonValue, key: &str) -> (r: Option<String>)
    ensures
        match r {
            Some(s) => spec_str_field(v@, key@) == Some(s@),
            None => spec_str_field(v@, key@) is None,
        },
{
    match v.get(key) {
        Some(f) => match f.as_text() {
            Some(s) => Some(s.clone()),
            None => None,
        },
        None => None,
    }
}

/// Optional string field: absent or `null` stays absent, a non-string is an
/// error.
pub open spec fn spec_opt_str_field(v: JsonVal, key: Seq<char>) -> Result<Option<Seq<char>>, ()> {
    match spec_get(v, key) {
        None => Ok(None),
        Some(JsonVal::Null) => Ok(None),
        Some(JsonVal::Text(s)) => Ok(Some(s)),
        Some(_) => Err(()),
    }
}

pub fn opt_str_field(v: &JsonValue, key: &str) -> (r: Result<Option<String>, ()>)
    ensures
        match r {
            Ok(Some(s)) => spec_opt_str_field(v@, key@) == Ok::<Option<Seq<char>>, ()>(
                Some(s@),
            ),
            Ok(None) => spec_opt_str_field(v@, key@) == Ok::<Option<Seq<char>>, ()>(
                None::<Seq<char>>,
            ),
            Err(()) => spec_opt_str_field(v@, key@) is Err,
        },
{
    match v.get(key) {
        None => Ok(None),
        Some(f) => {
            if f.is_null() {
                Ok(None)
            } else {
                match f.as_text() {
                    Some(s) => Ok(Some(s.clone())),
                    None => Err(()),
                }
            }
        },
    }
}

/// Mandatory integer field of an object.
pub open spec fn spec_int_field(v: JsonVal, key: Seq<char>) -> Option<int> {
    match spec_get(v, key) {
        Some(JsonVal::Int(n)) => Some(n),
        _ => None,
    }
}

pub fn int_field(v: &JsonValue, key: &str) -> (r: Option<i64>)
    ensures
        match r {
            Some(n) => spec_int_field(v@, key@) == Some(n as int),
            None => spec_int_field(v@, key@) is None,
        },
{
    match v.get(key) {
        Some(f) => f.as_int(),
        None => None,
    }
}

/// Mandatory boolean field of an object.
pub open spec fn spec_bool_field(v: JsonVal, key: Seq<char>) -> Option<bool> {
    match spec_get(v, key) {
        Some(JsonVal::Bool(b)) => Some(b),
        _ => None,
    }
}

pub fn bool_field(v: &JsonValue, key: &str) -> (r: Option<bool>)
    ensures
        r == spec_bool_field(v@, key@),
{
    match v.get(key) {
        Some(f) => f.as_bool(),
        None => None,
    }
}

/// Optional boolean field: absent or `null` stays absent.
pub open spec fn spec_opt_bool_field(v: JsonVal, key: Seq<char>) -> Result<Option<bool>, ()> {
    match spec_get(v, key) {
        None => Ok(None),
        Some(JsonVal::Null) => Ok(None),
        Some(JsonVal::Bool(b)) => Ok(Some(b)),
        Some(_) => Err(()),
    }
}

pub fn opt_bool_field(v: &JsonValue, key: &str) -> (r: Result<Option<bool>, ()>)
    ensures
        r == spec_opt_bool_field(v@, key@),
{
    match v.get(key) {
        None => Ok(None),
        Some(f) => {
            if f.is_null() {
                Ok(None)
            } else {
                match f.as_bool() {
                    Some(b) => Ok(Some(b)),
                    None => Err(()),
                }
            }
        },
    }
}

/// A number field read as text: integers render in decimal, big numbers
/// keep their text; strings are not accepted.
pub open spec fn spec_num_text_field(v: JsonVal, key: Seq<char>) -> Option<Seq<char>> {
    match spec_get(v, key) {
        Some(JsonVal::Int(n)) => Some(dec_int(n)),
        Some(JsonVal::BigNum(s)) => Some(s),
        _ => None,
    }
}

pub fn num_text_field(v: &JsonValue, key: &str) -> (r: Option<String>)
    ensures
        match r {
            Some(s) => spec_num_text_field(v@, key@) == Some(s@),
            None => spec_num_text_field(v@, key@) is None,
        },
{
    match v.get(key) {
        Some(f) => match f {
            JsonValue::Int(n) => Some(i64_to_dec(*n)),
            JsonValue::BigNum(s) => Some(s.clone()),
            _ => None,
        },
        None => None,
    }
}

} // verus!
