//! JSON values as the ledger stores them.
use crate::text::str_eq;
use vstd::prelude::*;
use vstd::string::*;

verus! {

/// A number of `serde_json`. It is carried through and never looked into.
#[verifier::external_type_specification]
#[verifier::external_body]
pub struct ExNumber(serde_json::Number);

/// A clone of a number of `serde_json` is that number.
pub assume_specification[ <serde_json::Number as Clone>::clone ](n: &serde_json::Number) -> (out:
    serde_json::Number)
    ensures
        out == *n,
;

/// A JSON document of `serde_json`.
#[verifier::external_type_specification]
#[verifier::external_body]
pub struct ExValue(serde_json::Value);

/// A JSON value. Of two fields of an object with the same name the later one counts.
#[derive(Debug)]
pub enum Json {
    Null,
    Bool(bool),
    Number(serde_json::Number),
    Text(String),
    Array(Vec<Json>),
    Object(Vec<(String, Json)>),
}

/// What a JSON value is: an object maps names to values.
pub enum JsonView {
    Null,
    Bool(bool),
    Number(serde_json::Number),
    Text(Seq<char>),
    Array(Seq<JsonView>),
    Object(Map<Seq<char>, JsonView>),
}

/// The map that a list of fields stands for.
pub open spec fn object_view(fields: Seq<(String, Json)>) -> Map<Seq<char>, JsonView>
    decreases fields,
{
    if fields.len() == 0 {
        Map::empty()
    } else {
        object_view(fields.subrange(0, fields.len() - 1)).insert(
            fields[fields.len() - 1].0@,
            json_view(fields[fields.len() - 1].1),
        )
    }
}

/// What a JSON value is.
pub open spec fn json_view(v: Json) -> JsonView
    decreases v,
{
    match v {
        Json::Null => JsonView::Null,
        Json::Bool(b) => JsonView::Bool(b),
        Json::Number(n) => JsonView::Number(n),
        Json::Text(s) => JsonView::Text(s@),
        Json::Array(items) => JsonView::Array(
            Seq::new(
                items@.len(),
                |i: int|
                    if 0 <= i < items@.len() {
                        json_view(items@[i])
                    } else {
                        JsonView::Null
                    },
            ),
        ),
        Json::Object(fields) => JsonView::Object(object_view(fields@)),
    }
}

impl View for Json {
    type V = JsonView;

    open spec fn view(&self) -> JsonView {
        json_view(*self)
    }
}

/// The field of an object with this name; nothing else has fields.
pub open spec fn json_get(v: JsonView, name: Seq<char>) -> Option<JsonView> {
    match v {
        JsonView::Object(fields) => if fields.dom().contains(name) {
            Some(fields[name])
        } else {
            None
        },
        _ => None,
    }
}

/// The text that a JSON string holds.
pub open spec fn json_str(v: JsonView) -> Option<Seq<char>> {
    match v {
        JsonView::Text(s) => Some(s),
        _ => None,
    }
}

/// The text that a field of an object holds.
pub open spec fn json_get_str(v: JsonView, name: Seq<char>) -> Option<Seq<char>> {
    match json_get(v, name) {
        Some(f) => json_str(f),
        None => None,
    }
}

/// What `serde_json::Value::to_string` gives for a value: compact JSON.
pub uninterp spec fn json_compact(v: JsonView) -> Seq<char>;

/// The JSON value that a document of `serde_json` is.
pub uninterp spec fn document_view(v: serde_json::Value) -> JsonView;

/// The value as a document of `serde_json`, variant by variant. `serde_json::Map::insert` replaces
/// the value that stood under a name, so the field that comes last counts, as in `object_view`.
#[verifier::external_body]
fn to_document(v: &Json) -> (document: serde_json::Value)
    ensures
        document_view(document) == v@,
{
    match v {
        Json::Null => serde_json::Value::Null,
        Json::Bool(b) => serde_json::Value::Bool(*b),
        Json::Number(n) => serde_json::Value::Number(n.clone()),
        Json::Text(s) => serde_json::Value::String(s.clone()),
        Json::Array(items) => serde_json::Value::Array(items.iter().map(to_document).collect()),
        Json::Object(fields) => {
            let mut map = serde_json::Map::new();
            for field in fields {
                map.insert(field.0.clone(), to_document(&field.1));
            }
            serde_json::Value::Object(map)
        },
    }
}

/// `serde_json::Value::to_string`: the compact text, a function of the value alone.
#[verifier::external_body]
fn document_text(document: &serde_json::Value) -> (out: String)
    ensures
        out@ == json_compact(document_view(*document)),
{
    document.to_string()
}

impl Clone for Json {
    fn clone(&self) -> (out: Json)
        ensures
            out@ == self@,
        decreases self,
    {
        match self {
            Json::Null => Json::Null,
            Json::Bool(b) => Json::Bool(*b),
            Json::Number(n) => Json::Number(n.clone()),
            Json::Text(s) => Json::Text(s.clone()),
            Json::Array(items) => {
                let mut copies: Vec<Json> = Vec::new();
                let mut i: usize = 0;
                while i < items.len()
                    invariant
                        i <= items@.len(),
                        copies@.len() == i,
                        *self == Json::Array(*items),
                        forall|j: int| 0 <= j < i ==> (#[trigger] copies@[j])@ == items@[j]@,
                    decreases items@.len() - i,
                {
                    proof {
                        assert(decreases_to!(*self => self->Array_0));
                        assert(decreases_to!(self->Array_0 => self->Array_0@));
                        assert(decreases_to!(self->Array_0@ => self->Array_0@[i as int]));
                    }
                    copies.push(items[i].clone());
                    i += 1;
                }
                let out = Json::Array(copies);
                proof {
                    assert(out@->Array_0 =~= self@->Array_0);
                }
                out
            },
            Json::Object(fields) => {
                let mut copies: Vec<(String, Json)> = Vec::new();
                let mut i: usize = 0;
                proof {
                    assert(fields@.subrange(0, 0) =~= Seq::empty());
                }
                while i < fields.len()
                    invariant
                        i <= fields@.len(),
                        *self == Json::Object(*fields),
                        object_view(copies@) == object_view(fields@.subrange(0, i as int)),
                    decreases fields@.len() - i,
                {
                    let ghost before = copies@;
                    proof {
                        assert(decreases_to!(*self => self->Object_0));
                        assert(decreases_to!(self->Object_0 => self->Object_0@));
                        assert(decreases_to!(self->Object_0@ => self->Object_0@[i as int]));
                        assert(decreases_to!(self->Object_0@[i as int] => self->Object_0@[i as int].1));
                    }
                    copies.push((fields[i].0.clone(), fields[i].1.clone()));
                    proof {
                        assert(copies@.subrange(0, copies@.len() - 1) =~= before);
                        let head = fields@.subrange(0, i + 1);
                        assert(head.subrange(0, head.len() - 1) =~= fields@.subrange(0, i as int));
                    }
                    i += 1;
                }
                proof {
                    assert(fields@.subrange(0, i as int) =~= fields@);
                }
                Json::Object(copies)
            },
        }
    }
}

impl Json {
    /// The field with this name, if the value is an object that has it.
    pub fn get(&self, name: &str) -> (field: Option<&Json>)
        ensures
            match field {
                Some(f) => json_get(self@, name@) == Some(f@),
                None => json_get(self@, name@) is None,
            },
    {
        match self {
            Json::Object(fields) => {
                let mut n: usize = fields.len();
                proof {
                    assert(fields@.subrange(0, n as int) =~= fields@);
                }
                while n > 0
                    invariant
                        n <= fields@.len(),
                        *self == Json::Object(*fields),
                        json_get(JsonView::Object(object_view(fields@)), name@) == json_get(
                            JsonView::Object(object_view(fields@.subrange(0, n as int))),
                            name@,
                        ),
                    decreases n,
                {
                    let ghost head = fields@.subrange(0, n as int);
                    proof {
                        assert(head.subrange(0, head.len() - 1) =~= fields@.subrange(0, n - 1));
                        assert(head[head.len() - 1] == fields@[n - 1]);
                    }
                    if str_eq(fields[n - 1].0.as_str(), name) {
                        return Some(&fields[n - 1].1);
                    }
                    n -= 1;
                }
                None
            },
            _ => None,
        }
    }

    /// The text, if the value is a string.
    pub fn as_str(&self) -> (s: Option<&str>)
        ensures
            match s {
                Some(t) => json_str(self@) == Some(t@),
                None => json_str(self@) is None,
            },
    {
        match self {
            Json::Text(t) => Some(t.as_str()),
            _ => None,
        }
    }

    /// The text of the field with this name, if there is such a field and it is a string.
    pub fn get_str(&self, name: &str) -> (s: Option<&str>)
        ensures
            match s {
                Some(t) => json_get_str(self@, name@) == Some(t@),
                None => json_get_str(self@, name@) is None,
            },
    {
        match self.get(name) {
            Some(f) => f.as_str(),
            None => None,
        }
    }

    /// Whether the value is an object.
    pub fn is_object(&self) -> (b: bool)
        ensures
            b == (self@ is Object),
    {
        match self {
            Json::Object(_) => true,
            _ => false,
        }
    }

    /// The compact JSON text of the value.
    pub fn to_text(&self) -> (out: String)
        ensures
            out@ == json_compact(self@),
    {
        let document = to_document(self);
        document_text(&document)
    }
}

} // verus!
