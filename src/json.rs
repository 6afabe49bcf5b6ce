use vstd::prelude::*;

verus! {

#[verifier::external_type_specification]
#[verifier::external_body]
pub struct ExNumber(serde_json::Number);

#[verifier::external_type_specification]
#[verifier::external_body]
pub struct ExValue(serde_json::Value);

/// A JSON value as the protocol reads it.
pub enum Json {
    Null,
    Bool(bool),
    Int(i64),
    /// A number that does not fit an `i64` (a large unsigned or a fractional one).
    OtherNumber(serde_json::Number),
    Str(String),
    Array(Vec<Json>),
    Object(Vec<(String, Json)>),
}

/// The mathematical model of a JSON value.
pub ghost enum JsonV {
    Null,
    Bool(bool),
    Int(int),
    OtherNumber(serde_json::Number),
    Str(Seq<char>),
    Array(Seq<JsonV>),
    Object(Seq<(Seq<char>, JsonV)>),
}

impl View for Json {
    type V = JsonV;

    open spec fn view(&self) -> JsonV {
        json_view(*self)
    }
}

pub open spec fn json_view(j: Json) -> JsonV
    decreases j,
{
    match j {
        Json::Null => JsonV::Null,
        Json::Bool(b) => JsonV::Bool(b),
        Json::Int(i) => JsonV::Int(i as int),
        Json::OtherNumber(n) => JsonV::OtherNumber(n),
        Json::Str(s) => JsonV::Str(s@),
        Json::Array(v) => JsonV::Array(items_view(v@)),
        Json::Object(v) => JsonV::Object(entries_view(v@)),
    }
}

/// The models of the items of an array.
pub open spec fn items_view(s: Seq<Json>) -> Seq<JsonV>
    decreases s,
{
    if s.len() == 0 {
        Seq::empty()
    } else {
        seq![json_view(s[0])] + items_view(s.subrange(1, s.len() as int))
    }
}

/// The models of the entries of an object.
pub open spec fn entries_view(s: Seq<(String, Json)>) -> Seq<(Seq<char>, JsonV)>
    decreases s,
{
    if s.len() == 0 {
        Seq::empty()
    } else {
        seq![(s[0].0@, json_view(s[0].1))] + entries_view(s.subrange(1, s.len() as int))
    }
}

pub proof fn lemma_items_view(s: Seq<Json>)
    ensures
        items_view(s).len() == s.len(),
        forall|i: int| 0 <= i < s.len() ==> #[trigger] items_view(s)[i] == s[i]@,
    decreases s.len(),
{
    if s.len() > 0 {
        lemma_items_view(s.subrange(1, s.len() as int));
        assert forall|i: int| 0 <= i < s.len() implies #[trigger] items_view(s)[i] == s[i]@ by {
            if i > 0 {
                assert(s.subrange(1, s.len() as int)[i - 1] == s[i]);
            }
        }
    }
}

pub proof fn lemma_entries_view(s: Seq<(String, Json)>)
    ensures
        entries_view(s).len() == s.len(),
        forall|i: int| 0 <= i < s.len() ==> #[trigger] entries_view(s)[i] == (s[i].0@, s[i].1@),
    decreases s.len(),
{
    if s.len() > 0 {
        lemma_entries_view(s.subrange(1, s.len() as int));
        assert forall|i: int| 0 <= i < s.len() implies #[trigger] entries_view(s)[i] == (
            s[i].0@,
            s[i].1@,
        ) by {
            if i > 0 {
                assert(s.subrange(1, s.len() as int)[i - 1] == s[i]);
            }
        }
    }
}

/// The value of the first entry of an object with the given key.
pub open spec fn field(entries: Seq<(Seq<char>, JsonV)>, key: Seq<char>) -> Option<JsonV>
    decreases entries.len(),
{
    if entries.len() == 0 {
        None
    } else if entries[0].0 == key {
        Some(entries[0].1)
    } else {
        field(entries.drop_first(), key)
    }
}

/// The value of a field of an object; `None` for a value that is no object.
pub open spec fn get(j: JsonV, key: Seq<char>) -> Option<JsonV> {
    match j {
        JsonV::Object(entries) => field(entries, key),
        _ => None,
    }
}

/// The first entry with a key gives the field's value.
pub proof fn lemma_field_at(es: Seq<(Seq<char>, JsonV)>, i: int, key: Seq<char>)
    requires
        0 <= i < es.len(),
        es[i].0 == key,
        forall|j: int| 0 <= j < i ==> es[j].0 != key,
    ensures
        field(es, key) == Some(es[i].1),
    decreases i,
{
    if i > 0 {
        lemma_field_at(es.drop_first(), i - 1, key);
    }
}

/// An object without an entry of a key has no such field.
pub proof fn lemma_field_absent(es: Seq<(Seq<char>, JsonV)>, key: Seq<char>)
    requires
        forall|j: int| 0 <= j < es.len() ==> es[j].0 != key,
    ensures
        field(es, key) is None,
    decreases es.len(),
{
    if es.len() > 0 {
        lemma_field_absent(es.drop_first(), key);
    }
}

/// In an object whose keys are all different, each entry gives its field.
pub proof fn lemma_fields_distinct(es: Seq<(Seq<char>, JsonV)>)
    requires
        forall|a: int, b: int| 0 <= a < b < es.len() ==> es[a].0 != es[b].0,
    ensures
        forall|i: int| 0 <= i < es.len() ==> #[trigger] field(es, es[i].0) == Some(es[i].1),
{
    assert forall|i: int| 0 <= i < es.len() implies #[trigger] field(es, es[i].0) == Some(es[i].1) by {
        lemma_field_at(es, i, es[i].0);
    }
}

impl Json {
    /// A copy of this value.
    pub fn deep_clone(&self) -> (r: Json)
        ensures
            r@ == self@,
        decreases self,
    {
        match self {
            Json::Null => Json::Null,
            Json::Bool(b) => Json::Bool(*b),
            Json::Int(i) => Json::Int(*i),
            Json::OtherNumber(n) => Json::OtherNumber(clone_number(n)),
            Json::Str(s) => Json::Str(s.clone()),
            Json::Array(v) => {
                let mut out: Vec<Json> = Vec::new();
                let mut i: usize = 0;
                while i < v.len()
                    invariant
                        i <= v@.len(),
                        out@.len() == i,
                        *self == Json::Array(*v),
                        forall|k: int| 0 <= k < i ==> out@[k]@ == v@[k]@,
                    decreases v@.len() - i,
                {
                    assert(decreases_to!(*self => (*self)->Array_0));
                    assert(decreases_to!(*v => v@));
                    assert(decreases_to!(v@ => v@[i as int]));
                    out.push(v[i].deep_clone());
                    i = i + 1;
                }
                proof {
                    lemma_items_view(out@);
                    lemma_items_view(v@);
                    assert(items_view(out@) =~= items_view(v@));
                }
                Json::Array(out)
            },
            Json::Object(v) => {
                let mut out: Vec<(String, Json)> = Vec::new();
                let mut i: usize = 0;
                while i < v.len()
                    invariant
                        i <= v@.len(),
                        out@.len() == i,
                        *self == Json::Object(*v),
                        forall|k: int| 0 <= k < i ==> out@[k].0@ == v@[k].0@ && out@[k].1@ == v@[k].1@,
                    decreases v@.len() - i,
                {
                    assert(decreases_to!(*self => (*self)->Object_0));
                    assert(decreases_to!(*v => v@));
                    assert(decreases_to!(v@ => v@[i as int]));
                    assert(decreases_to!(v@[i as int] => v@[i as int].1));
                    let e = &v[i];
                    out.push((e.0.clone(), e.1.deep_clone()));
                    i = i + 1;
                }
                proof {
                    lemma_entries_view(out@);
                    lemma_entries_view(v@);
                    assert(entries_view(out@) =~= entries_view(v@));
                }
                Json::Object(out)
            },
        }
    }

    /// The value of a field, where this is an object that has it.
    pub fn get(&self, key: &str) -> (r: Option<&Json>)
        ensures
            r matches Some(x) ==> get(self@, key@) == Some(x@),
            r is None ==> get(self@, key@) is None,
    {
        match self {
            Json::Object(v) => {
                let mut i: usize = 0;
                proof {
                    lemma_entries_view(v@);
                    assert(entries_view(v@).subrange(0, v@.len() as int) =~= entries_view(v@));
                }
                while i < v.len()
                    invariant
                        i <= v@.len(),
                        entries_view(v@).len() == v@.len(),
                        self@ == JsonV::Object(entries_view(v@)),
                        field(entries_view(v@), key@) == field(entries_view(v@).subrange(i as int, v@.len() as int), key@),
                    decreases v@.len() - i,
                {
                    let ghost rest = entries_view(v@).subrange(i as int, v@.len() as int);
                    proof { lemma_entries_view(v@); }
                    assert(rest[0] == (v@[i as int].0@, v@[i as int].1@));
                    if crate::text::str_eq(v[i].0.as_str(), key) {
                        assert(entries_view(v@)[i as int] == rest[0]);
                        return Some(&v[i].1);
                    }
                    assert(rest.drop_first() =~= entries_view(v@).subrange(i + 1, v@.len() as int));
                    i = i + 1;
                }
                None
            },
            _ => None,
        }
    }

    /// The text of a string value.
    pub fn as_str(&self) -> (r: Option<&String>)
        ensures
            r matches Some(s) ==> self@ == JsonV::Str(s@),
            r is None ==> !(self@ is Str),
    {
        match self {
            Json::Str(s) => Some(s),
            _ => None,
        }
    }

    /// An object with the given entries, in order.
    pub fn object(entries: Vec<(String, Json)>) -> (r: Json)
        ensures
            r@ == JsonV::Object(entries_view(entries@)),
            entries_view(entries@).len() == entries@.len(),
            forall|i: int|
                0 <= i < entries@.len() ==> #[trigger] entries_view(entries@)[i] == (
                    entries@[i].0@,
                    entries@[i].1@,
                ),
    {
        proof {
            lemma_entries_view(entries@);
        }
        Json::Object(entries)
    }

    /// An array with the given items, in order.
    pub fn array(items: Vec<Json>) -> (r: Json)
        ensures
            r@ == JsonV::Array(items_view(items@)),
            items_view(items@).len() == items@.len(),
            forall|i: int| 0 <= i < items@.len() ==> #[trigger] items_view(items@)[i] == items@[i]@,
    {
        proof {
            lemma_items_view(items@);
        }
        Json::Array(items)
    }
}

/// Relies on `Clone` for `serde_json::Number`: the copy is the same number.
#[verifier::external_body]
fn clone_number(n: &serde_json::Number) -> (r: serde_json::Number)
    ensures
        r == *n,
{
    n.clone()
}

/// The outcome of reading a text as JSON: the value, or the parser's description of the fault.
pub uninterp spec fn json_parsed(text: Seq<char>) -> Result<JsonV, Seq<char>>;

/// The model of a parse outcome.
pub open spec fn parse_outcome(r: Result<Json, String>) -> Result<JsonV, Seq<char>> {
    match r {
        Ok(j) => Ok(j@),
        Err(e) => Err(e@),
    }
}

/// The compact JSON text of a value.
pub uninterp spec fn json_printed(j: JsonV) -> Seq<char>;

/// Relies on `serde_json::from_str` into a `serde_json::Value`: the outcome depends on the text
/// alone.
#[verifier::external_body]
pub fn parse_json(text: &str) -> (r: Result<Json, String>)
    ensures
        parse_outcome(r) == json_parsed(text@),
{
    serde_json::from_str::<serde_json::Value>(text).map(json_from_value).map_err(|e| e.to_string())
}

/// Relies on `Display` for `serde_json::Value`, which writes compact JSON text and cannot fail
/// on a value: the text depends on the value alone.
#[verifier::external_body]
pub fn print_json(j: Json) -> (r: String)
    ensures
        r@ == json_printed(j@),
{
    value_from_json(j).to_string()
}

/// Moves a `serde_json::Value` into the library's model, variant for variant.
#[verifier::external_body]
fn json_from_value(v: serde_json::Value) -> Json {
    match v {
        serde_json::Value::Null => Json::Null,
        serde_json::Value::Bool(b) => Json::Bool(b),
        serde_json::Value::Number(n) => n.as_i64().map(Json::Int).unwrap_or(Json::OtherNumber(n)),
        serde_json::Value::String(s) => Json::Str(s),
        serde_json::Value::Array(a) => Json::Array(a.into_iter().map(json_from_value).collect()),
        serde_json::Value::Object(m) => {
            Json::Object(m.into_iter().map(|(k, v)| (k, json_from_value(v))).collect())
        },
    }
}

/// Moves the library's model of a value into a `serde_json::Value`, variant for variant.
#[verifier::external_body]
fn value_from_json(j: Json) -> serde_json::Value {
    match j {
        Json::Null => serde_json::Value::Null,
        Json::Bool(b) => serde_json::Value::Bool(b),
        Json::Int(i) => serde_json::Value::Number(i.into()),
        Json::OtherNumber(n) => serde_json::Value::Number(n),
        Json::Str(s) => serde_json::Value::String(s),
        Json::Array(a) => serde_json::Value::Array(a.into_iter().map(value_from_json).collect()),
        Json::Object(m) => {
            serde_json::Value::Object(m.into_iter().map(|(k, v)| (k, value_from_json(v))).collect())
        },
    }
}

} // verus!
