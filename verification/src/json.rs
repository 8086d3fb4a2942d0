//! A JSON value as the library reads it: what `serde_json::Value` holds,
//! with numbers kept as the integer they are, or as their text otherwise.
use vstd::prelude::*;
use crate::strs::owned;

verus! {

/// A JSON number.
#[derive(Debug, Clone)]
pub enum JsonNumber {
    /// A non-negative integer.
    PosInt(u64),
    /// A negative integer.
    NegInt(i64),
    /// Any other number, by its JSON text.
    Float(String),
}

/// A JSON value. Object fields keep their order; a key is looked up at its
/// first field.
#[derive(Debug)]
pub enum JsonValue {
    Null,
    Bool(bool),
    Number(JsonNumber),
    String(String),
    Array(Vec<JsonValue>),
    Object(Vec<(String, JsonValue)>),
}

/// The first index at or after `i` of a field named `key`, or `fields.len()`.
pub open spec fn field_index(fields: Seq<(String, JsonValue)>, key: Seq<char>, i: int) -> int
    decreases fields.len() - i,
{
    if i < 0 || i >= fields.len() {
        fields.len() as int
    } else if fields[i].0@ == key {
        i
    } else {
        field_index(fields, key, i + 1)
    }
}

pub proof fn lemma_field_index(fields: Seq<(String, JsonValue)>, key: Seq<char>, i: int)
    requires
        0 <= i <= fields.len(),
    ensures
        i <= field_index(fields, key, i) <= fields.len(),
        field_index(fields, key, i) < fields.len() ==> fields[field_index(fields, key, i)].0@
            == key,
    decreases fields.len() - i,
{
    if i < fields.len() && fields[i].0@ != key {
        lemma_field_index(fields, key, i + 1);
    }
}

/// `v[key]` for an object `v` that has the key (`Value::get`).
pub open spec fn json_get(v: JsonValue, key: Seq<char>) -> Option<JsonValue> {
    match v {
        JsonValue::Object(fields) => {
            let k = field_index(fields@, key, 0);
            if k < fields@.len() {
                Some(fields@[k].1)
            } else {
                None
            }
        },
        _ => None,
    }
}

/// The text of a string value (`Value::as_str`).
pub open spec fn json_as_str(v: Option<JsonValue>) -> Option<Seq<char>> {
    match v {
        Some(JsonValue::String(s)) => Some(s@),
        _ => None,
    }
}

/// The value of a boolean (`Value::as_bool`).
pub open spec fn json_as_bool(v: Option<JsonValue>) -> Option<bool> {
    match v {
        Some(JsonValue::Bool(b)) => Some(b),
        _ => None,
    }
}

/// The elements of an array (`Value::as_array`).
pub open spec fn json_as_array(v: Option<JsonValue>) -> Option<Seq<JsonValue>> {
    match v {
        Some(JsonValue::Array(a)) => Some(a@),
        _ => None,
    }
}

/// The value of a non-negative integer (`Value::as_u64`).
pub open spec fn json_as_u64(v: Option<JsonValue>) -> Option<u64> {
    match v {
        Some(JsonValue::Number(JsonNumber::PosInt(n))) => Some(n),
        _ => None,
    }
}

/// The text of the string field `key`, or the empty text when there is none
/// (`v.get(key).and_then(|v| v.as_str()).unwrap_or("")`).
pub open spec fn str_or_empty(v: JsonValue, key: Seq<char>) -> Seq<char> {
    match json_as_str(json_get(v, key)) {
        Some(s) => s,
        None => Seq::empty(),
    }
}

impl JsonValue {
    /// The value of field `key`, for an object that has it.
    pub fn get(&self, key: &str) -> (r: Option<&JsonValue>)
        ensures
            match r {
                Some(x) => json_get(*self, key@) == Some(*x),
                None => json_get(*self, key@) is None,
            },
    {
        match self {
            JsonValue::Object(fields) => {
                let mut i: usize = 0;
                while i < fields.len()
                    invariant
                        *self == JsonValue::Object(*fields),
                        i <= fields.len(),
                        field_index(fields@, key@, 0) == field_index(fields@, key@, i as int),
                    decreases fields.len() - i,
                {
                    if crate::strs::str_eq(fields[i].0.as_str(), key) {
                        assert(field_index(fields@, key@, i as int) == i as int);
                        return Some(&fields[i].1);
                    }
                    i = i + 1;
                }
                None
            },
            _ => None,
        }
    }


    /// The value of field `key`, taking the object apart.
    pub fn into_field(self, key: &str) -> (r: Option<JsonValue>)
        ensures
            r == json_get(self, key@),
    {
        let ghost whole = self;
        match self {
            JsonValue::Object(mut fields) => {
                let ghost f0 = fields@;
                let mut i: usize = 0;
                while i < fields.len()
                    invariant
                        whole == self,
                        whole == JsonValue::Object(fields),
                        fields@ == f0,
                        i <= fields.len(),
                        field_index(f0, key@, 0) == field_index(f0, key@, i as int),
                    decreases fields.len() - i,
                {
                    if crate::strs::str_eq(fields[i].0.as_str(), key) {
                        assert(field_index(f0, key@, i as int) == i as int);
                        let ghost fv = f0[i as int].1;
                        let (_, v) = fields.remove(i);
                        return Some(v);
                    }
                    i = i + 1;
                }
                None
            },
            _ => None,
        }
    }

    /// The text of a string value.
    pub fn as_str(&self) -> (r: Option<&str>)
        ensures
            match r {
                Some(t) => json_as_str(Some(*self)) == Some(t@),
                None => json_as_str(Some(*self)) is None,
            },
    {
        match self {
            JsonValue::String(s) => Some(s.as_str()),
            _ => None,
        }
    }

    /// The value of a boolean.
    pub fn as_bool(&self) -> (r: Option<bool>)
        ensures
            r == json_as_bool(Some(*self)),
    {
        match self {
            JsonValue::Bool(b) => Some(*b),
            _ => None,
        }
    }

    /// The elements of an array.
    pub fn as_array(&self) -> (r: Option<&Vec<JsonValue>>)
        ensures
            match r {
                Some(a) => json_as_array(Some(*self)) == Some(a@),
                None => json_as_array(Some(*self)) is None,
            },
    {
        match self {
            JsonValue::Array(a) => Some(a),
            _ => None,
        }
    }

    /// The value of a non-negative integer.
    pub fn as_u64(&self) -> (r: Option<u64>)
        ensures
            r == json_as_u64(Some(*self)),
    {
        match self {
            JsonValue::Number(JsonNumber::PosInt(n)) => Some(*n),
            _ => None,
        }
    }
}

/// The text of string field `key` of `v`, or the empty string.
pub fn str_field(v: &JsonValue, key: &str) -> (r: String)
    ensures
        r@ == str_or_empty(*v, key@),
{
    match v.get(key) {
        Some(x) => match x.as_str() {
            Some(t) => owned(t),
            None => String::new(),
        },
        None => String::new(),
    }
}


} // verus!

verus! {

/// Member `key` of an optional value (`Option::and_then(|v| v.get(key))`).
pub open spec fn get_in(v: Option<JsonValue>, key: Seq<char>) -> Option<JsonValue> {
    match v {
        Some(x) => json_get(x, key),
        None => None,
    }
}

/// The text of an optional string value, or `d`.
pub open spec fn str_or(v: Option<JsonValue>, d: Seq<char>) -> Seq<char> {
    match json_as_str(v) {
        Some(s) => s,
        None => d,
    }
}

/// What `serde_json::from_value::<Vec<String>>` makes of a value: the
/// strings of an array of strings.
pub open spec fn json_string_list(v: Option<JsonValue>) -> Option<Seq<Seq<char>>> {
    match v {
        Some(JsonValue::Array(a)) => if forall|i: int|
            0 <= i < a@.len() ==> (#[trigger] a@[i]) is String {
            Some(Seq::new(a@.len(), |i: int| a@[i]->String_0@))
        } else {
            None
        },
        _ => None,
    }
}

/// What `serde_json::from_value::<Vec<usize>>` makes of a value: the
/// numbers of an array of non-negative integers that fit a `usize`.
pub open spec fn json_usize_list(v: Option<JsonValue>) -> Option<Seq<usize>> {
    match v {
        Some(JsonValue::Array(a)) => if forall|i: int|
            0 <= i < a@.len() ==> ((#[trigger] a@[i]) matches JsonValue::Number(
                JsonNumber::PosInt(n),
            ) && n <= usize::MAX) {
            Some(Seq::new(a@.len(), |i: int| a@[i]->Number_0->PosInt_0 as usize))
        } else {
            None
        },
        _ => None,
    }
}

/// What `serde_json::from_value::<HashMap<String, String>>` makes of a
/// value: the members of an object whose members are all strings, in order.
pub open spec fn json_string_table(v: Option<JsonValue>) -> Option<Seq<(Seq<char>, Seq<char>)>> {
    match v {
        Some(JsonValue::Object(f)) => if forall|i: int|
            0 <= i < f@.len() ==> (#[trigger] f@[i]).1 is String {
            Some(Seq::new(f@.len(), |i: int| (f@[i].0@, f@[i].1->String_0@)))
        } else {
            None
        },
        _ => None,
    }
}

/// The mathematical content of a JSON value.
pub enum JsonModel {
    Null,
    Bool(bool),
    Number(JsonNumber),
    String(Seq<char>),
    Array(Seq<JsonModel>),
    Object(Seq<(Seq<char>, JsonModel)>),
}

/// The content of a JSON value, with strings and vectors taken by their
/// views.
pub open spec fn json_model(v: JsonValue) -> JsonModel
    decreases v,
{
    match v {
        JsonValue::Null => JsonModel::Null,
        JsonValue::Bool(b) => JsonModel::Bool(b),
        JsonValue::Number(n) => JsonModel::Number(n),
        JsonValue::String(s) => JsonModel::String(s@),
        JsonValue::Array(a) => JsonModel::Array(
            Seq::new(
                a@.len(),
                |i: int|
                    if 0 <= i < a.len() {
                        proof {
                            vstd::std_specs::vec::axiom_vec_index_decreases(a, i);
                        }
                        json_model(a[i])
                    } else {
                        JsonModel::Null
                    },
            ),
        ),
        JsonValue::Object(f) => JsonModel::Object(
            Seq::new(
                f@.len(),
                |i: int|
                    if 0 <= i < f.len() {
                        proof {
                            vstd::std_specs::vec::axiom_vec_index_decreases(f, i);
                        }
                        (f[i].0@, json_model(f[i].1))
                    } else {
                        (Seq::empty(), JsonModel::Null)
                    },
            ),
        ),
    }
}


} // verus!

verus! {

impl JsonNumber {
    /// A copy of the number.
    pub fn duplicate(&self) -> (r: JsonNumber)
        ensures
            r == *self,
    {
        match self {
            JsonNumber::PosInt(n) => JsonNumber::PosInt(*n),
            JsonNumber::NegInt(n) => JsonNumber::NegInt(*n),
            JsonNumber::Float(t) => JsonNumber::Float(t.clone()),
        }
    }
}

impl JsonValue {
    /// A copy of the value, with the same content.
    pub fn duplicate(&self) -> (r: JsonValue)
        ensures
            json_model(r) == json_model(*self),
        decreases *self,
    {
        match self {
            JsonValue::Null => JsonValue::Null,
            JsonValue::Bool(b) => JsonValue::Bool(*b),
            JsonValue::Number(n) => JsonValue::Number(n.duplicate()),
            JsonValue::String(s) => JsonValue::String(s.clone()),
            JsonValue::Array(a) => {
                let mut r: Vec<JsonValue> = Vec::new();
                let mut i: usize = 0;
                while i < a.len()
                    invariant
                        *self == JsonValue::Array(*a),
                        i <= a.len(),
                        r@.len() == i,
                        forall|j: int| 0 <= j < i ==> json_model(#[trigger] r@[j]) == json_model(a@[j]),
                    decreases a.len() - i,
                {
                    proof {
                        vstd::std_specs::vec::axiom_vec_index_decreases(*a, i as int);
                        assert(decreases_to!(*self => (*self)->Array_0));
                        assert(decreases_to!(*a => (*a)[i as int]));
                    }
                    let d = a[i].duplicate();
                    r.push(d);
                    i = i + 1;
                }
                let out = JsonValue::Array(r);
                assert(json_model(out) == json_model(*self)) by {
                    if let JsonModel::Array(x) = json_model(out) {
                        if let JsonModel::Array(y) = json_model(*self) {
                            assert(x =~= y);
                        }
                    }
                }
                out
            },
            JsonValue::Object(f) => {
                let mut r: Vec<(String, JsonValue)> = Vec::new();
                let mut i: usize = 0;
                while i < f.len()
                    invariant
                        *self == JsonValue::Object(*f),
                        i <= f.len(),
                        r@.len() == i,
                        forall|j: int|
                            0 <= j < i ==> (#[trigger] r@[j]).0@ == f@[j].0@ && json_model(r@[j].1)
                                == json_model(f@[j].1),
                    decreases f.len() - i,
                {
                    proof {
                        vstd::std_specs::vec::axiom_vec_index_decreases(*f, i as int);
                        assert(decreases_to!(*self => (*self)->Object_0));
                        assert(decreases_to!(*f => (*f)[i as int]));
                        assert(decreases_to!((*f)[i as int] => (*f)[i as int].1));
                    }
                    let k = f[i].0.clone();
                    let d = f[i].1.duplicate();
                    r.push((k, d));
                    i = i + 1;
                }
                let out = JsonValue::Object(r);
                assert(json_model(out) == json_model(*self)) by {
                    if let JsonModel::Object(x) = json_model(out) {
                        if let JsonModel::Object(y) = json_model(*self) {
                            assert(x =~= y);
                        }
                    }
                }
                out
            },
        }
    }
}

/// Member `key` of an optional value.
pub fn get_in_value<'a>(v: Option<&'a JsonValue>, key: &str) -> (r: Option<&'a JsonValue>)
    ensures
        match v {
            Some(x) => match r {
                Some(y) => json_get(*x, key@) == Some(*y),
                None => json_get(*x, key@) is None,
            },
            None => r is None,
        },
{
    match v {
        Some(x) => x.get(key),
        None => None,
    }
}

/// The text of an optional string value, or `d`.
pub fn str_value_or(v: Option<&JsonValue>, d: &str) -> (r: String)
    ensures
        r@ == str_or(
            match v {
                Some(x) => Some(*x),
                None => None,
            },
            d@,
        ),
{
    match v {
        Some(x) => match x.as_str() {
            Some(s) => owned(s),
            None => owned(d),
        },
        None => owned(d),
    }
}

/// The strings of an array of strings.
pub fn string_list(v: Option<&JsonValue>) -> (r: Option<Vec<String>>)
    ensures
        match r {
            Some(l) => json_string_list(
                match v {
                    Some(x) => Some(*x),
                    None => None,
                },
            ) == Some(l@.map_values(|s: String| s@)),
            None => json_string_list(
                match v {
                    Some(x) => Some(*x),
                    None => None,
                },
            ) is None,
        },
{
    let a = match v {
        Some(JsonValue::Array(a)) => a,
        _ => return None,
    };
    let mut out: Vec<String> = Vec::new();
    let mut i: usize = 0;
    while i < a.len()
        invariant
            v == Some(&JsonValue::Array(*a)),
            i <= a@.len(),
            out@.len() == i,
            forall|j: int| 0 <= j < i ==> (#[trigger] a@[j]) is String && out@[j]@ == a@[j]->String_0@,
        decreases a.len() - i,
    {
        match &a[i] {
            JsonValue::String(s) => {
                out.push(s.clone());
            },
            _ => {
                return None;
            },
        }
        i = i + 1;
    }
    assert(out@.map_values(|s: String| s@) =~= Seq::new(a@.len(), |i: int| a@[i]->String_0@));
    Some(out)
}

/// The numbers of an array of non-negative integers that fit a `usize`.
pub fn usize_list(v: Option<&JsonValue>) -> (r: Option<Vec<usize>>)
    ensures
        match r {
            Some(l) => json_usize_list(
                match v {
                    Some(x) => Some(*x),
                    None => None,
                },
            ) == Some(l@),
            None => json_usize_list(
                match v {
                    Some(x) => Some(*x),
                    None => None,
                },
            ) is None,
        },
{
    let a = match v {
        Some(JsonValue::Array(a)) => a,
        _ => return None,
    };
    let mut out: Vec<usize> = Vec::new();
    let mut i: usize = 0;
    while i < a.len()
        invariant
            v == Some(&JsonValue::Array(*a)),
            i <= a@.len(),
            out@.len() == i,
            forall|j: int|
                0 <= j < i ==> ((#[trigger] a@[j]) matches JsonValue::Number(JsonNumber::PosInt(n))
                    && n <= usize::MAX && out@[j] == n as usize),
        decreases a.len() - i,
    {
        match &a[i] {
            JsonValue::Number(JsonNumber::PosInt(n)) => {
                if *n > usize::MAX as u64 {
                    return None;
                }
                out.push(*n as usize);
            },
            _ => {
                return None;
            },
        }
        i = i + 1;
    }
    assert(out@ =~= Seq::new(a@.len(), |i: int| a@[i]->Number_0->PosInt_0 as usize));
    Some(out)
}

/// The members of an object whose members are all strings, in order.
pub fn string_table(v: Option<&JsonValue>) -> (r: Option<Vec<(String, String)>>)
    ensures
        match r {
            Some(l) => json_string_table(
                match v {
                    Some(x) => Some(*x),
                    None => None,
                },
            ) == Some(l@.map_values(|p: (String, String)| (p.0@, p.1@))),
            None => json_string_table(
                match v {
                    Some(x) => Some(*x),
                    None => None,
                },
            ) is None,
        },
{
    let f = match v {
        Some(JsonValue::Object(f)) => f,
        _ => return None,
    };
    let mut out: Vec<(String, String)> = Vec::new();
    let mut i: usize = 0;
    while i < f.len()
        invariant
            v == Some(&JsonValue::Object(*f)),
            i <= f@.len(),
            out@.len() == i,
            forall|j: int|
                0 <= j < i ==> (#[trigger] f@[j]).1 is String && out@[j].0@ == f@[j].0@ && out@[j].1@
                    == f@[j].1->String_0@,
        decreases f.len() - i,
    {
        match &f[i].1 {
            JsonValue::String(s) => {
                out.push((f[i].0.clone(), s.clone()));
            },
            _ => {
                return None;
            },
        }
        i = i + 1;
    }
    assert(out@.map_values(|p: (String, String)| (p.0@, p.1@)) =~= Seq::new(
        f@.len(),
        |i: int| (f@[i].0@, f@[i].1->String_0@),
    ));
    Some(out)
}

} // verus!
