//! JSON values as the library reads them, and the calls into `serde_json`
//! that turn text into such a value and back.

use vstd::prelude::*;

verus! {

#[verifier::external_type_specification]
#[verifier::external_body]
pub struct ExSerdeValue(serde_json::Value);

#[verifier::external_type_specification]
#[verifier::external_body]
pub struct ExSerdeNumber(serde_json::Number);

#[verifier::external_type_specification]
#[verifier::external_body]
pub struct ExSerdeError(serde_json::Error);

/// `Clone` for `serde_json::Number`: the copy is the number itself.
pub assume_specification[ <serde_json::Number as Clone>::clone ](n: &serde_json::Number) -> (r:
    serde_json::Number)
    ensures
        r == *n,
;

/// A JSON value. A number is carried as `serde_json` holds it: the library
/// never looks inside one. The fields of an object stand in the order in
/// which `serde_json` keeps them; where a key occurs twice the later field
/// counts.
#[derive(Debug)]
pub enum JsonValue {
    Null,
    Bool(bool),
    Number(serde_json::Number),
    String(String),
    Array(Vec<JsonValue>),
    Object(Vec<(String, JsonValue)>),
}

/// A JSON value as a mathematical tree.
pub enum JsonTree {
    Null,
    Bool(bool),
    Number(serde_json::Number),
    String(Seq<char>),
    Array(Seq<JsonTree>),
    Object(Seq<(Seq<char>, JsonTree)>),
}

/// The tree that a value of the library stands for.
pub open spec fn tree_of(value: JsonValue) -> JsonTree
    decreases value,
{
    match value {
        JsonValue::Null => JsonTree::Null,
        JsonValue::Bool(b) => JsonTree::Bool(b),
        JsonValue::Number(n) => JsonTree::Number(n),
        JsonValue::String(s) => JsonTree::String(s@),
        JsonValue::Array(items) => JsonTree::Array(
            Seq::new(
                items@.len(),
                |i: int|
                    if 0 <= i < items@.len() {
                        tree_of(items@[i])
                    } else {
                        JsonTree::Null
                    },
            ),
        ),
        JsonValue::Object(fields) => JsonTree::Object(
            Seq::new(
                fields@.len(),
                |i: int|
                    if 0 <= i < fields@.len() {
                        (fields@[i].0@, tree_of(fields@[i].1))
                    } else {
                        (Seq::empty(), JsonTree::Null)
                    },
            ),
        ),
    }
}

impl View for JsonValue {
    type V = JsonTree;

    open spec fn view(&self) -> JsonTree {
        tree_of(*self)
    }
}

impl Clone for JsonValue {
    fn clone(&self) -> (r: Self)
        ensures
            r@ == self@,
    {
        self.duplicate()
    }
}

impl JsonValue {
    /// A copy of this value.
    pub fn duplicate(&self) -> (r: Self)
        ensures
            r@ == self@,
        decreases self,
    {
        match self {
            JsonValue::Null => JsonValue::Null,
            JsonValue::Bool(b) => JsonValue::Bool(*b),
            JsonValue::Number(n) => JsonValue::Number(n.clone()),
            JsonValue::String(s) => JsonValue::String(s.clone()),
            JsonValue::Array(items) => {
                let mut copy: Vec<JsonValue> = Vec::new();
                let mut i: usize = 0;
                while i < items.len()
                    invariant
                        i <= items@.len(),
                        self is Array,
                        self->Array_0 == *items,
                        copy@.len() == i,
                        forall|k: int| 0 <= k < i ==> copy@[k]@ == items@[k]@,
                    decreases items@.len() - i,
                {
                    assert(decreases_to!(items => items[i as int]));
                    copy.push(items[i].duplicate());
                    i += 1;
                }
                let r = JsonValue::Array(copy);
                assert(r@->Array_0 =~= self@->Array_0);
                r
            },
            JsonValue::Object(fields) => {
                let mut copy: Vec<(String, JsonValue)> = Vec::new();
                let mut i: usize = 0;
                while i < fields.len()
                    invariant
                        i <= fields@.len(),
                        self is Object,
                        self->Object_0 == *fields,
                        copy@.len() == i,
                        forall|k: int|
                            0 <= k < i ==> copy@[k].0@ == fields@[k].0@ && copy@[k].1@
                                == fields@[k].1@,
                    decreases fields@.len() - i,
                {
                    assert(decreases_to!(fields => fields[i as int]));
                    copy.push((fields[i].0.clone(), fields[i].1.duplicate()));
                    i += 1;
                }
                let r = JsonValue::Object(copy);
                assert(r@->Object_0 =~= self@->Object_0);
                r
            },
        }
    }
}

/// The trees of a list of values, in order.
pub open spec fn items_tree(items: Seq<JsonValue>) -> Seq<JsonTree> {
    Seq::new(items.len(), |i: int| items[i]@)
}

/// The keys and the trees of a list of fields, in order.
pub open spec fn fields_tree(fields: Seq<(String, JsonValue)>) -> Seq<(Seq<char>, JsonTree)> {
    Seq::new(fields.len(), |i: int| (fields[i].0@, fields[i].1@))
}

/// The tree of an array holds the trees of its items, in order.
pub proof fn lemma_array_view(value: JsonValue)
    requires
        value is Array,
    ensures
        value@ is Array,
        (value@->Array_0).len() == (value->Array_0)@.len(),
        forall|k: int|
            0 <= k < (value->Array_0)@.len() ==> (#[trigger] (value@->Array_0)[k]) == (
            value->Array_0)@[k]@,
{
}

/// The tree of an object holds the keys and the trees of its fields, in
/// order.
pub proof fn lemma_object_view(value: JsonValue)
    requires
        value is Object,
    ensures
        value@ is Object,
        (value@->Object_0).len() == (value->Object_0)@.len(),
        forall|k: int|
            0 <= k < (value->Object_0)@.len() ==> (#[trigger] (value@->Object_0)[k]) == ((
                value->Object_0)@[k].0@, (value->Object_0)@[k].1@),
{
}

/// The value of the last field of `fields` whose key is `key`.
pub open spec fn field_of(fields: Seq<(Seq<char>, JsonTree)>, key: Seq<char>) -> Option<JsonTree>
    decreases fields.len(),
{
    if fields.len() == 0 {
        None
    } else if fields.last().0 == key {
        Some(fields.last().1)
    } else {
        field_of(fields.drop_last(), key)
    }
}

impl JsonTree {
    /// The member `key` of an object; `None` for anything else.
    pub open spec fn get(self, key: Seq<char>) -> Option<JsonTree> {
        match self {
            JsonTree::Object(fields) => field_of(fields, key),
            _ => None,
        }
    }

    /// The text of a JSON string; `None` for anything else.
    pub open spec fn as_str(self) -> Option<Seq<char>> {
        match self {
            JsonTree::String(s) => Some(s),
            _ => None,
        }
    }

    /// The member `key` where it is a JSON string.
    pub open spec fn get_str(self, key: Seq<char>) -> Option<Seq<char>> {
        match self.get(key) {
            Some(v) => v.as_str(),
            None => None,
        }
    }
}

/// The tree that a `serde_json::Value` holds.
pub uninterp spec fn serde_tree(value: serde_json::Value) -> JsonTree;

/// The value that `serde_json::from_str` reads from `text`; `None` where
/// it reports an error.
pub uninterp spec fn json_document(text: Seq<char>) -> Option<JsonTree>;

/// The compact text that `serde_json::to_string` writes for a value.
pub uninterp spec fn json_text(tree: JsonTree) -> Seq<char>;

/// `serde_json::from_str` at the type `serde_json::Value`: it succeeds
/// exactly on the texts that are JSON documents, and the value it hands
/// back holds that document.
#[verifier::external_body]
fn serde_from_str(text: &str) -> (r: Result<serde_json::Value, serde_json::Error>)
    ensures
        match r {
            Ok(value) => json_document(text@) == Some(serde_tree(value)),
            Err(_) => json_document(text@) is None,
        },
{
    serde_json::from_str::<serde_json::Value>(text)
}

/// `serde_json::to_string` on a `serde_json::Value`: the compact text of
/// the tree that the value holds. For a `Value` it does not fail: the
/// writer is a byte buffer, every key is a string, and a number that is
/// not finite is written as `null`.
#[verifier::external_body]
fn serde_to_string(value: &serde_json::Value) -> (r: Result<String, serde_json::Error>)
    ensures
        r is Ok,
        r matches Ok(text) ==> text@ == json_text(serde_tree(*value)),
{
    serde_json::to_string(value)
}

/// Reads the variants of a `serde_json::Value` into the library's type,
/// one for one.
#[verifier::external_body]
fn from_serde(value: &serde_json::Value) -> (r: JsonValue)
    ensures
        r@ == serde_tree(*value),
{
    match value {
        serde_json::Value::Null => JsonValue::Null,
        serde_json::Value::Bool(b) => JsonValue::Bool(*b),
        serde_json::Value::Number(n) => JsonValue::Number(n.clone()),
        serde_json::Value::String(s) => JsonValue::String(s.clone()),
        serde_json::Value::Array(a) => JsonValue::Array(a.iter().map(from_serde).collect()),
        serde_json::Value::Object(o) => JsonValue::Object(
            o.iter().map(|(k, v)| (k.clone(), from_serde(v))).collect(),
        ),
    }
}

/// Builds the `serde_json::Value` for a value of the library, one variant
/// for one. `serde_json` writes for it the text that `json_text` names.
#[verifier::external_body]
fn to_serde(value: &JsonValue) -> (r: serde_json::Value)
    ensures
        json_text(serde_tree(r)) == json_text(value@),
{
    match value {
        JsonValue::Null => serde_json::Value::Null,
        JsonValue::Bool(b) => serde_json::Value::Bool(*b),
        JsonValue::Number(n) => serde_json::Value::Number(n.clone()),
        JsonValue::String(s) => serde_json::Value::String(s.clone()),
        JsonValue::Array(a) => serde_json::Value::Array(a.iter().map(to_serde).collect()),
        JsonValue::Object(o) => serde_json::Value::Object(
            o.iter().map(|(k, v)| (k.clone(), to_serde(v))).collect(),
        ),
    }
}

/// `Display` of a `serde_json::Error`: the message of the error. Nothing
/// is promised of the text.
#[verifier::external_body]
fn serde_error_text(error: &serde_json::Error) -> String {
    error.to_string()
}

/// Reads a JSON document; where `serde_json` refuses the text, its
/// message comes back.
pub fn parse_json(text: &str) -> (r: Result<JsonValue, String>)
    ensures
        match r {
            Ok(value) => json_document(text@) == Some(value@),
            Err(_) => json_document(text@) is None,
        },
{
    match serde_from_str(text) {
        Ok(value) => Ok(from_serde(&value)),
        Err(error) => Err(serde_error_text(&error)),
    }
}

impl JsonValue {
    /// The compact JSON text of this value.
    pub fn to_json_string(&self) -> (text: String)
        ensures
            text@ == json_text(self@),
    {
        let value = to_serde(self);
        match serde_to_string(&value) {
            Ok(text) => text,
            Err(_) => String::new(),
        }
    }

    /// The member `key` of an object.
    pub fn get(&self, key: &str) -> (r: Option<&JsonValue>)
        ensures
            match r {
                Some(v) => self@.get(key@) == Some(v@),
                None => self@.get(key@) is None,
            },
    {
        match self {
            JsonValue::Object(fields) => {
                let ghost all = self@->Object_0;
                let mut i: usize = fields.len();
                proof {
                    lemma_object_view(*self);
                }
                assert(all.take(i as int) =~= all);
                while i > 0
                    invariant
                        i <= fields@.len(),
                        self@ == JsonTree::Object(all),
                        all.len() == fields@.len(),
                        forall|k: int|
                            0 <= k < all.len() ==> all[k] == (fields@[k].0@, fields@[k].1@),
                        field_of(all, key@) == field_of(all.take(i as int), key@),
                    decreases i,
                {
                    i -= 1;
                    assert(all.take(i + 1).last() == all[i as int]);
                    assert(all.take(i + 1).drop_last() =~= all.take(i as int));
                    if crate::text::str_equal(fields[i].0.as_str(), key) {
                        assert(field_of(all.take(i + 1), key@) == Some(all[i as int].1));
                        return Some(&fields[i].1);
                    }
                    assert(field_of(all.take(i + 1), key@) == field_of(all.take(i as int), key@));
                }
                assert(all.take(0).len() == 0);
                None
            },
            _ => None,
        }
    }

    /// The items of a JSON array.
    pub fn as_array(&self) -> (r: Option<&Vec<JsonValue>>)
        ensures
            match r {
                Some(items) => self@ == JsonTree::Array(items_tree(items@)),
                None => !(self@ is Array),
            },
    {
        match self {
            JsonValue::Array(items) => {
                proof {
                    lemma_array_view(*self);
                    assert(self@->Array_0 =~= items_tree(items@));
                }
                Some(items)
            },
            _ => None,
        }
    }

    /// The fields of a JSON object.
    pub fn as_object(&self) -> (r: Option<&Vec<(String, JsonValue)>>)
        ensures
            match r {
                Some(fields) => self@ == JsonTree::Object(fields_tree(fields@)),
                None => !(self@ is Object),
            },
    {
        match self {
            JsonValue::Object(fields) => {
                proof {
                    lemma_object_view(*self);
                    assert(self@->Object_0 =~= fields_tree(fields@));
                }
                Some(fields)
            },
            _ => None,
        }
    }

    /// The text of a JSON string.
    pub fn as_str(&self) -> (r: Option<&str>)
        ensures
            match r {
                Some(s) => self@.as_str() == Some(s@),
                None => self@.as_str() is None,
            },
    {
        match self {
            JsonValue::String(s) => Some(s.as_str()),
            _ => None,
        }
    }
}

} // verus!
