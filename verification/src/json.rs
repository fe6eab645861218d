//! JSON documents as trees of plain values. Reading a text into a tree and
//! writing a tree as text is the work of `serde_json`; finding fields and
//! reading strings and integers out of a tree is done here.

use crate::decimal::{parse_i64, parse_u64, parsed_i64, parsed_u64};
use crate::text::str_equal;
use vstd::prelude::*;

verus! {

/// A JSON document. A number keeps its text, an object keeps its fields in
/// the order in which they were read or given.
#[derive(Debug)]
pub enum Json {
    Null,
    Bool(bool),
    Number(String),
    Str(String),
    Array(Vec<Json>),
    Object(Vec<(String, Json)>),
}

/// The mathematical value of a JSON document.
pub ghost enum JsonTree {
    Null,
    Bool(bool),
    Number(Seq<char>),
    Str(Seq<char>),
    Array(Seq<JsonTree>),
    Object(Seq<(Seq<char>, JsonTree)>),
}

/// The index of the first field named `key`, or the number of fields when
/// there is none.
pub open spec fn field_index(fields: Seq<(Seq<char>, JsonTree)>, key: Seq<char>) -> int
    decreases fields.len(),
{
    if fields.len() == 0 {
        0
    } else if fields[0].0 == key {
        0
    } else {
        1 + field_index(fields.skip(1), key)
    }
}

impl JsonTree {
    /// The value of the first field named `key`, if this is an object that
    /// has such a field.
    pub open spec fn field(self, key: Seq<char>) -> Option<JsonTree> {
        match self {
            JsonTree::Object(fields) => {
                let i = field_index(fields, key);
                if 0 <= i < fields.len() {
                    Some(fields[i].1)
                } else {
                    None
                }
            },
            _ => None,
        }
    }

    /// The text of a string node.
    pub open spec fn as_str(self) -> Option<Seq<char>> {
        match self {
            JsonTree::Str(s) => Some(s),
            _ => None,
        }
    }

    /// The value of a number node whose text is an integer of 64 bits.
    pub open spec fn as_i64(self) -> Option<i64> {
        match self {
            JsonTree::Number(n) => parsed_i64(n),
            _ => None,
        }
    }

    /// The value of a number node whose text is an unsigned integer of 64
    /// bits.
    pub open spec fn as_u64(self) -> Option<u64> {
        match self {
            JsonTree::Number(n) => parsed_u64(n),
            _ => None,
        }
    }

    /// The items of an array node.
    pub open spec fn as_array(self) -> Option<Seq<JsonTree>> {
        match self {
            JsonTree::Array(items) => Some(items),
            _ => None,
        }
    }

    /// The value of a boolean node.
    pub open spec fn as_bool(self) -> Option<bool> {
        match self {
            JsonTree::Bool(b) => Some(b),
            _ => None,
        }
    }

    /// The text of the string field named `key`.
    pub open spec fn str_field(self, key: Seq<char>) -> Option<Seq<char>> {
        match self.field(key) {
            Some(v) => v.as_str(),
            None => None,
        }
    }

    /// Whether this is an object with at least one field.
    pub open spec fn is_filled_object(self) -> bool {
        match self {
            JsonTree::Object(fields) => fields.len() > 0,
            _ => false,
        }
    }
}

/// The mathematical value of a document.
pub open spec fn tree_of(j: Json) -> JsonTree
    decreases j,
{
    match j {
        Json::Null => JsonTree::Null,
        Json::Bool(b) => JsonTree::Bool(b),
        Json::Number(n) => JsonTree::Number(n@),
        Json::Str(s) => JsonTree::Str(s@),
        Json::Array(items) => JsonTree::Array(
            Seq::new(
                items@.len(),
                |i: int|
                    if 0 <= i < items@.len() {
                        tree_of(items@[i])
                    } else {
                        JsonTree::Null
                    },
            ),
        ),
        Json::Object(fields) => JsonTree::Object(
            Seq::new(
                fields@.len(),
                |i: int|
                    if 0 <= i < fields@.len() {
                        (fields@[i].0@, tree_of(fields@[i].1))
                    } else {
                        (Seq::empty(), JsonTree::Null)
                    },
            ),
        ),
    }
}

impl View for Json {
    type V = JsonTree;

    open spec fn view(&self) -> JsonTree {
        tree_of(*self)
    }
}

/// Views of the fields of an object.
pub open spec fn fields_view(fields: Seq<(String, Json)>) -> Seq<(Seq<char>, JsonTree)> {
    Seq::new(fields.len(), |i: int| (fields[i].0@, fields[i].1@))
}

/// Views of the items of an array.
pub open spec fn items_view(items: Seq<Json>) -> Seq<JsonTree> {
    Seq::new(items.len(), |i: int| items[i]@)
}

/// The tree that a JSON text denotes, if the text is well formed.
pub uninterp spec fn json_parsed(text: Seq<char>) -> Option<JsonTree>;

/// The compact text of a JSON tree.
pub uninterp spec fn json_text(tree: JsonTree) -> Seq<char>;

/// View of an optional document.
pub open spec fn opt_tree(j: Option<Json>) -> Option<JsonTree> {
    match j {
        Some(v) => Some(v@),
        None => None,
    }
}

/// View of an optional borrowed document.
pub open spec fn opt_tree_ref(j: Option<&Json>) -> Option<JsonTree> {
    match j {
        Some(v) => Some(v@),
        None => None,
    }
}

/// View of an optional borrowed string.
pub open spec fn opt_str(s: Option<&str>) -> Option<Seq<char>> {
    match s {
        Some(t) => Some(t@),
        None => None,
    }
}

pub proof fn lemma_field_index(fields: Seq<(Seq<char>, JsonTree)>, key: Seq<char>)
    ensures
        0 <= field_index(fields, key) <= fields.len(),
        forall|j: int| 0 <= j < field_index(fields, key) ==> fields[j].0 != key,
        field_index(fields, key) < fields.len() ==> fields[field_index(fields, key)].0 == key,
    decreases fields.len(),
{
    if fields.len() > 0 && fields[0].0 != key {
        let t = fields.skip(1);
        lemma_field_index(t, key);
        assert forall|j: int| 0 <= j < field_index(fields, key) implies fields[j].0 != key by {
            if j > 0 {
                assert(fields[j] == t[j - 1]);
            }
        }
    }
}

/// The first index that holds `key` with no such field before it is the
/// field's index.
pub proof fn lemma_field_index_unique(fields: Seq<(Seq<char>, JsonTree)>, key: Seq<char>, i: int)
    requires
        0 <= i <= fields.len(),
        forall|j: int| 0 <= j < i ==> fields[j].0 != key,
        i < fields.len() ==> fields[i].0 == key,
    ensures
        field_index(fields, key) == i,
{
    lemma_field_index(fields, key);
}

/// `serde_json`'s document type, which is carried through unopened.
#[verifier::external_type_specification]
#[verifier::external_body]
pub struct ExJsonValue(serde_json::Value);

/// Turns a `serde_json::Value` into a tree, variant by variant; a number is
/// kept as the text that `serde_json` prints for it.
#[verifier::external_body]
fn json_from_value(v: &serde_json::Value) -> Json {
    match v {
        serde_json::Value::Null => Json::Null,
        serde_json::Value::Bool(b) => Json::Bool(*b),
        serde_json::Value::Number(n) => Json::Number(n.to_string()),
        serde_json::Value::String(s) => Json::Str(s.clone()),
        serde_json::Value::Array(a) => Json::Array(a.iter().map(json_from_value).collect()),
        serde_json::Value::Object(o) => Json::Object(
            o.iter().map(|(k, x)| (k.clone(), json_from_value(x))).collect(),
        ),
    }
}

/// Turns a tree into a `serde_json::Value`, variant by variant; a number
/// whose text `serde_json` does not read as a number becomes `null`.
#[verifier::external_body]
fn json_to_value(j: &Json) -> serde_json::Value {
    match j {
        Json::Null => serde_json::Value::Null,
        Json::Bool(b) => serde_json::Value::Bool(*b),
        Json::Number(n) => n.parse().map_or(serde_json::Value::Null, serde_json::Value::Number),
        Json::Str(s) => serde_json::Value::String(s.clone()),
        Json::Array(a) => serde_json::Value::Array(a.iter().map(json_to_value).collect()),
        Json::Object(o) => serde_json::Value::Object(
            o.iter().map(|(k, x)| (k.clone(), json_to_value(x))).collect(),
        ),
    }
}

/// Calls `serde_json::from_str` for a `serde_json::Value`. The tree that a
/// text denotes is named, not defined.
#[verifier::external_body]
pub(crate) fn parse_json(text: &str) -> (r: Option<Json>)
    ensures
        opt_tree(r) == json_parsed(text@),
{
    match serde_json::from_str::<serde_json::Value>(text) {
        Ok(v) => Some(json_from_value(&v)),
        Err(_) => None,
    }
}

/// Calls `to_string` on the `serde_json::Value` of the tree. The text is
/// named, not defined.
#[verifier::external_body]
pub(crate) fn print_json(j: &Json) -> (r: String)
    ensures
        r@ == json_text(j@),
{
    json_to_value(j).to_string()
}

impl Json {
    /// Reads a JSON text.
    pub fn parse(text: &str) -> (r: Option<Json>)
        ensures
            opt_tree(r) == json_parsed(text@),
    {
        parse_json(text)
    }

    /// Writes the document as compact JSON text.
    pub fn to_text(&self) -> (r: String)
        ensures
            r@ == json_text(self@),
    {
        print_json(self)
    }

    /// A string node.
    pub fn string(s: &str) -> (r: Json)
        ensures
            r@ == JsonTree::Str(s@),
    {
        Json::Str(s.to_owned())
    }

    /// The value of the first field named `key`.
    pub fn field(&self, key: &str) -> (r: Option<&Json>)
        ensures
            opt_tree_ref(r) == self@.field(key@),
    {
        match self {
            Json::Object(fields) => {
                let ghost view = self@->Object_0;
                let mut i: usize = 0;
                while i < fields.len()
                    invariant
                        i <= fields.len(),
                        self@ == JsonTree::Object(view),
                        view.len() == fields@.len(),
                        forall|j: int|
                            0 <= j < fields@.len() ==> #[trigger] view[j] == (
                                fields@[j].0@,
                                fields@[j].1@,
                            ),
                        forall|j: int| 0 <= j < i ==> view[j].0 != key@,
                    decreases fields.len() - i,
                {
                    if str_equal(fields[i].0.as_str(), key) {
                        proof {
                            assert(view[i as int].0 == key@);
                            lemma_field_index_unique(view, key@, i as int);
                            assert(self@.field(key@) == Some(view[i as int].1));
                        }
                        return Some(&fields[i].1);
                    }
                    i += 1;
                }
                proof {
                    lemma_field_index_unique(view, key@, fields@.len() as int);
                }
                None
            },
            _ => None,
        }
    }

    /// The text of a string node.
    pub fn as_str(&self) -> (r: Option<&str>)
        ensures
            opt_str(r) == self@.as_str(),
    {
        match self {
            Json::Str(s) => Some(s.as_str()),
            _ => None,
        }
    }

    /// The value of a number node whose text is an integer of 64 bits.
    pub fn as_i64(&self) -> (r: Option<i64>)
        ensures
            r == self@.as_i64(),
    {
        match self {
            Json::Number(n) => parse_i64(n.as_str()),
            _ => None,
        }
    }

    /// The value of a number node whose text is an unsigned integer of 64
    /// bits.
    pub fn as_u64(&self) -> (r: Option<u64>)
        ensures
            r == self@.as_u64(),
    {
        match self {
            Json::Number(n) => parse_u64(n.as_str()),
            _ => None,
        }
    }

    /// The items of an array node.
    pub fn as_array(&self) -> (r: Option<&Vec<Json>>)
        ensures
            match r {
                Some(items) => self@.as_array() == Some(items_view(items@)),
                None => self@.as_array() is None,
            },
    {
        match self {
            Json::Array(items) => {
                assert(self@->Array_0 =~= items_view(items@));
                Some(items)
            },
            _ => None,
        }
    }

    /// The value of a boolean node.
    pub fn as_bool(&self) -> (r: Option<bool>)
        ensures
            r == self@.as_bool(),
    {
        match self {
            Json::Bool(b) => Some(*b),
            _ => None,
        }
    }

    /// An object node with the given fields.
    pub fn object(fields: Vec<(String, Json)>) -> (r: Json)
        ensures
            r@ == JsonTree::Object(fields_view(fields@)),
    {
        let r = Json::Object(fields);
        assert(r@->Object_0 =~= fields_view(fields@));
        r
    }

    /// The text of the string field named `key`.
    pub fn str_field(&self, key: &str) -> (r: Option<&str>)
        ensures
            opt_str(r) == self@.str_field(key@),
    {
        match self.field(key) {
            Some(v) => v.as_str(),
            None => None,
        }
    }

    /// Whether this is an object with at least one field.
    pub fn is_filled_object(&self) -> (r: bool)
        ensures
            r == self@.is_filled_object(),
    {
        match self {
            Json::Object(fields) => fields.len() > 0,
            _ => false,
        }
    }
}

} // verus!

