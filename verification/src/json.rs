//! A parsed JSON document, as the guard sees it.
//!
//! `Json` holds the document as plain values; `JsonModel` is its
//! mathematical shape, used by every contract. Parsing raw bytes is done
//! by serde_json behind a trusted wrapper whose result is named by
//! `json_of`.

use vstd::prelude::*;

verus! {

/// One JSON value. Numbers are carried as their decimal text: the guard
/// never does arithmetic on them, and the receipt fields it reads are
/// strings and arrays.
pub enum Json {
    Null,
    Bool(bool),
    Number(String),
    Text(String),
    Array(Vec<Json>),
    Object(Vec<(String, Json)>),
}

/// The mathematical shape of a `Json` value.
pub enum JsonModel {
    Null,
    Bool(bool),
    Number(Seq<char>),
    Text(Seq<char>),
    Array(Seq<JsonModel>),
    Object(Seq<(Seq<char>, JsonModel)>),
}

impl Json {
    /// The model of this value: every string viewed as its characters,
    /// every composite viewed element by element, in order.
    pub open spec fn deep(self) -> JsonModel
        decreases self,
    {
        match self {
            Json::Null => JsonModel::Null,
            Json::Bool(b) => JsonModel::Bool(b),
            Json::Number(s) => JsonModel::Number(s@),
            Json::Text(s) => JsonModel::Text(s@),
            Json::Array(a) => {
                proof {
                    assert(decreases_to!(self => a));
                    assert(decreases_to!(a => a@));
                }
                JsonModel::Array(deep_list(a@))
            },
            Json::Object(o) => {
                proof {
                    assert(decreases_to!(self => o));
                    assert(decreases_to!(o => o@));
                }
                JsonModel::Object(deep_fields(o@))
            },
        }
    }
}

/// The models of a sequence of values, element by element, in order.
pub open spec fn deep_list(s: Seq<Json>) -> Seq<JsonModel>
    decreases s,
{
    if s.len() == 0 {
        Seq::empty()
    } else {
        seq![s[0].deep()] + deep_list(s.drop_first())
    }
}

/// The models of a sequence of object fields, key and value, in order.
pub open spec fn deep_fields(s: Seq<(String, Json)>) -> Seq<(Seq<char>, JsonModel)>
    decreases s,
{
    if s.len() == 0 {
        Seq::empty()
    } else {
        seq![(s[0].0@, s[0].1.deep())] + deep_fields(s.drop_first())
    }
}

/// `deep_list` is the element-wise model of the sequence.
pub proof fn lemma_deep_list(s: Seq<Json>)
    ensures
        deep_list(s).len() == s.len(),
        forall|i: int| 0 <= i < s.len() ==> deep_list(s)[i] == s[i].deep(),
    decreases s.len(),
{
    if s.len() > 0 {
        lemma_deep_list(s.drop_first());
    }
}

/// `deep_fields` is the field-wise model of the sequence.
pub proof fn lemma_deep_fields(s: Seq<(String, Json)>)
    ensures
        deep_fields(s).len() == s.len(),
        forall|i: int| 0 <= i < s.len() ==> deep_fields(s)[i] == (s[i].0@, s[i].1.deep()),
    decreases s.len(),
{
    if s.len() > 0 {
        lemma_deep_fields(s.drop_first());
    }
}

/// The value under the first field named `key`, if any.
pub open spec fn lookup_field(fields: Seq<(Seq<char>, JsonModel)>, key: Seq<char>) -> Option<
    JsonModel,
>
    decreases fields.len(),
{
    if fields.len() == 0 {
        None
    } else if fields[0].0 == key {
        Some(fields[0].1)
    } else {
        lookup_field(fields.drop_first(), key)
    }
}

impl JsonModel {
    /// The value of the object field named `key`: `None` if this is not
    /// an object or no field has that name.
    pub open spec fn field(self, key: Seq<char>) -> Option<JsonModel> {
        match self {
            JsonModel::Object(fields) => lookup_field(fields, key),
            _ => None,
        }
    }
}

proof fn lemma_lookup_found(s: Seq<(String, Json)>, key: Seq<char>, i: int)
    requires
        0 <= i < s.len(),
        s[i].0@ == key,
        forall|k: int| 0 <= k < i ==> s[k].0@ != key,
    ensures
        lookup_field(deep_fields(s), key) == Some(s[i].1.deep()),
    decreases s.len(),
{
    lemma_deep_fields(s);
    if i > 0 {
        assert(deep_fields(s).drop_first() =~= deep_fields(s.drop_first()));
        lemma_lookup_found(s.drop_first(), key, i - 1);
    }
}

proof fn lemma_lookup_missing(s: Seq<(String, Json)>, key: Seq<char>)
    requires
        forall|k: int| 0 <= k < s.len() ==> s[k].0@ != key,
    ensures
        lookup_field(deep_fields(s), key) is None,
    decreases s.len(),
{
    lemma_deep_fields(s);
    if s.len() > 0 {
        assert(deep_fields(s).drop_first() =~= deep_fields(s.drop_first()));
        lemma_lookup_missing(s.drop_first(), key);
    }
}

impl Json {
    /// The value under the object field named `key`; `None` if this value
    /// is not an object or has no such field.
    #[verifier::loop_isolation(false)]
    pub fn get<'a>(&'a self, key: &String) -> (r: Option<&'a Json>)
        ensures
            r matches Some(v) ==> self.deep().field(key@) == Some(v.deep()),
            r is None ==> self.deep().field(key@) is None,
    {
        match self {
            Json::Object(fields) => {
                let n = fields.len();
                for i in 0..n
                    invariant
                        n == fields.len(),
                        forall|k: int| 0 <= k < i ==> fields@[k].0@ != key@,
                {
                    if fields[i].0 == *key {
                        proof {
                            lemma_lookup_found(fields@, key@, i as int);
                        }
                        return Some(&fields[i].1);
                    }
                }
                proof {
                    lemma_lookup_missing(fields@, key@);
                }
                None
            },
            _ => None,
        }
    }

    /// The characters of this value, if it is a JSON string.
    pub fn as_text(&self) -> (r: Option<&String>)
        ensures
            r matches Some(s) ==> self.deep() == JsonModel::Text(s@),
            r is None ==> !(self.deep() is Text),
    {
        match self {
            Json::Text(s) => Some(s),
            _ => None,
        }
    }

    /// The elements of this value, if it is a JSON array.
    pub fn as_array(&self) -> (r: Option<&Vec<Json>>)
        ensures
            r matches Some(a) ==> self.deep() == JsonModel::Array(deep_list(a@)),
            r is None ==> !(self.deep() is Array),
    {
        match self {
            Json::Array(a) => Some(a),
            _ => None,
        }
    }
}

/// What serde_json makes of a byte sequence: `Some` exactly when the bytes
/// are one syntactically valid JSON document, and then the document's
/// shape. Parsing is a function of the bytes alone, so the result can be
/// named even though its definition is the whole JSON grammar.
pub uninterp spec fn json_of(bytes: Seq<u8>) -> Option<JsonModel>;

/// serde_json's own document type, declared so that the conversion
/// below may take it; no contract looks inside it.
#[verifier::external_type_specification]
#[verifier::external_body]
pub struct ExValue(serde_json::Value);

/// Relies on serde_json::Value: each variant of the parsed document is
/// carried over one for one; a number becomes its decimal text.
#[verifier::external_body]
fn value_to_json(v: serde_json::Value) -> Json {
    match v {
        serde_json::Value::Null => Json::Null,
        serde_json::Value::Bool(b) => Json::Bool(b),
        serde_json::Value::Number(n) => Json::Number(n.to_string()),
        serde_json::Value::String(s) => Json::Text(s),
        serde_json::Value::Array(a) => Json::Array(a.into_iter().map(value_to_json).collect()),
        serde_json::Value::Object(o) => Json::Object(
            o.into_iter().map(|(k, w)| (k, value_to_json(w))).collect(),
        ),
    }
}

/// Relies on serde_json::from_slice::<Value>: it returns `Ok` exactly on
/// a syntactically valid JSON document, and the value it returns is a
/// function of the bytes alone, here named `json_of`.
#[verifier::external_body]
pub(crate) fn parse_json(bytes: &[u8]) -> (r: Option<Json>)
    ensures
        r matches Some(j) ==> json_of(bytes@) == Some(j.deep()),
        r is None ==> json_of(bytes@) is None,
{
    match serde_json::from_slice::<serde_json::Value>(bytes) {
        Ok(v) => Some(value_to_json(v)),
        Err(_) => None,
    }
}

} // verus!
