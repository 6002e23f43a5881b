//! JSON documents as plain values: the type the library reads wire formats from and
//! writes them to. Reading and writing JSON text is `serde_json`'s work.

use crate::text::same_text;
use serde_json::Value;
use vstd::prelude::*;
use vstd::string::StringSliceAdditionalSpecFns;

verus! {

/// A JSON document held as plain values.
///
/// A number is held as `Unsigned` where it is a non-negative integer that fits `u64`,
/// as `Signed` where it is a negative integer that fits `i64`, and as `Float`, by its
/// shortest decimal text, otherwise. The members of an `Object` are held in order;
/// where a key occurs twice, the later member is the one that counts.
#[derive(Debug, PartialEq)]
pub enum Json {
    Null,
    Bool(bool),
    Unsigned(u64),
    Signed(i64),
    Float(String),
    Text(String),
    Array(Vec<Json>),
    Object(Vec<(String, Json)>),
}

/// The mathematical content of a [`Json`] value.
pub enum JsonModel {
    Null,
    Bool(bool),
    Unsigned(nat),
    Signed(int),
    Float(Seq<char>),
    Text(Seq<char>),
    Array(Seq<JsonModel>),
    Object(Seq<(Seq<char>, JsonModel)>),
}

/// The member of `members` that counts for `key`: the last one that carries it.
pub open spec fn find_member(members: Seq<(Seq<char>, JsonModel)>, key: Seq<char>) -> Option<
    JsonModel,
>
    decreases members.len(),
{
    if members.len() == 0 {
        None
    } else if members.last().0 == key {
        Some(members.last().1)
    } else {
        find_member(members.drop_last(), key)
    }
}

impl JsonModel {
    /// The member `key` of an object; `None` for anything else.
    pub open spec fn member(self, key: Seq<char>) -> Option<JsonModel> {
        match self {
            JsonModel::Object(members) => find_member(members, key),
            _ => None,
        }
    }

    /// The characters of a string; `None` for anything else.
    pub open spec fn as_text(self) -> Option<Seq<char>> {
        match self {
            JsonModel::Text(t) => Some(t),
            _ => None,
        }
    }

    /// The value of a boolean; `None` for anything else.
    pub open spec fn as_bool(self) -> Option<bool> {
        match self {
            JsonModel::Bool(b) => Some(b),
            _ => None,
        }
    }

    /// The items of an array; `None` for anything else.
    pub open spec fn as_array(self) -> Option<Seq<JsonModel>> {
        match self {
            JsonModel::Array(items) => Some(items),
            _ => None,
        }
    }

    /// The characters of the member `key`, where it is there and is a string.
    pub open spec fn text_member(self, key: Seq<char>) -> Option<Seq<char>> {
        match self.member(key) {
            Some(value) => value.as_text(),
            None => None,
        }
    }

    /// The value of the member `key`, where it is there and is a boolean.
    pub open spec fn bool_member(self, key: Seq<char>) -> Option<bool> {
        match self.member(key) {
            Some(value) => value.as_bool(),
            None => None,
        }
    }

    /// The items of the member `key`, where it is there and is an array.
    pub open spec fn array_member(self, key: Seq<char>) -> Option<Seq<JsonModel>> {
        match self.member(key) {
            Some(value) => value.as_array(),
            None => None,
        }
    }
}

/// The content of each item of an array.
pub open spec fn array_view(items: Seq<Json>) -> Seq<JsonModel> {
    Seq::new(items.len(), |i: int| items[i]@)
}

/// The key and the content of each member of an object.
pub open spec fn object_view(members: Seq<(String, Json)>) -> Seq<(Seq<char>, JsonModel)> {
    Seq::new(members.len(), |i: int| (members[i].0@, members[i].1@))
}

/// The content of a document that may be absent.
pub open spec fn document_view(doc: Option<Json>) -> Option<JsonModel> {
    match doc {
        Some(d) => Some(d@),
        None => None,
    }
}

/// The content of a document.
pub open spec fn json_model(doc: Json) -> JsonModel
    decreases doc, 0nat,
{
    match doc {
        Json::Null => JsonModel::Null,
        Json::Bool(b) => JsonModel::Bool(b),
        Json::Unsigned(n) => JsonModel::Unsigned(n as nat),
        Json::Signed(n) => JsonModel::Signed(n as int),
        Json::Float(t) => JsonModel::Float(t@),
        Json::Text(t) => JsonModel::Text(t@),
        Json::Array(items) => JsonModel::Array(items_model(items, items.len() as nat)),
        Json::Object(members) => JsonModel::Object(
            members_model(members, members.len() as nat),
        ),
    }
}

/// The contents of the first `n` items of an array.
pub open spec fn items_model(items: Vec<Json>, n: nat) -> Seq<JsonModel>
    decreases items, n,
{
    if n == 0 || n > items.len() {
        Seq::empty()
    } else {
        items_model(items, (n - 1) as nat).push(json_model(items[n - 1]))
    }
}

/// The keys and contents of the first `n` members of an object.
pub open spec fn members_model(members: Vec<(String, Json)>, n: nat) -> Seq<
    (Seq<char>, JsonModel),
>
    decreases members, n,
{
    if n == 0 || n > members.len() {
        Seq::empty()
    } else {
        members_model(members, (n - 1) as nat).push(
            (members[n - 1].0@, json_model(members[n - 1].1)),
        )
    }
}

impl View for Json {
    type V = JsonModel;

    open spec fn view(&self) -> JsonModel {
        json_model(*self)
    }
}

proof fn lemma_items_model(items: Vec<Json>, n: nat)
    requires
        n <= items.len(),
    ensures
        items_model(items, n) == array_view(items@.take(n as int)),
    decreases n,
{
    if n > 0 {
        lemma_items_model(items, (n - 1) as nat);
        assert(items_model(items, n) =~= array_view(items@.take(n as int)));
    } else {
        assert(items_model(items, n) =~= array_view(items@.take(n as int)));
    }
}

proof fn lemma_members_model(members: Vec<(String, Json)>, n: nat)
    requires
        n <= members.len(),
    ensures
        members_model(members, n) == object_view(members@.take(n as int)),
    decreases n,
{
    if n > 0 {
        lemma_members_model(members, (n - 1) as nat);
        assert(members_model(members, n) =~= object_view(members@.take(n as int)));
    } else {
        assert(members_model(members, n) =~= object_view(members@.take(n as int)));
    }
}

/// The content of an array is the content of its items, in order.
pub proof fn lemma_array_view(items: Vec<Json>)
    ensures
        Json::Array(items)@ == JsonModel::Array(array_view(items@)),
{
    lemma_items_model(items, items.len() as nat);
    assert(items@.take(items.len() as int) =~= items@);
}

/// The content of an object is the keys and contents of its members, in order.
pub proof fn lemma_object_view(members: Vec<(String, Json)>)
    ensures
        Json::Object(members)@ == JsonModel::Object(object_view(members@)),
{
    lemma_members_model(members, members.len() as nat);
    assert(members@.take(members.len() as int) =~= members@);
}

/// The document that `serde_json` reads from `bytes`; `None` where it rejects them.
pub uninterp spec fn json_document(bytes: Seq<u8>) -> Option<JsonModel>;

/// The compact text that `serde_json` writes for a document.
pub uninterp spec fn json_text(doc: JsonModel) -> Seq<char>;

/// The indented text that `serde_json` writes for a document.
pub uninterp spec fn json_pretty_text(doc: JsonModel) -> Seq<char>;

#[verifier::external_type_specification]
#[verifier::external_body]
pub struct ExValue(Value);

/// Carries a `serde_json::Value` over into a [`Json`], variant by variant; a number
/// goes by `Number::as_u64`, then `Number::as_i64`, then its `Display` text.
#[verifier::external_body]
fn lift(value: &Value) -> Json {
    match value {
        Value::Null => Json::Null,
        Value::Bool(b) => Json::Bool(*b),
        Value::Number(n) => match (n.as_u64(), n.as_i64()) {
            (Some(u), _) => Json::Unsigned(u),
            (None, Some(i)) => Json::Signed(i),
            (None, None) => Json::Float(n.to_string()),
        },
        Value::String(t) => Json::Text(t.clone()),
        Value::Array(items) => Json::Array(items.iter().map(lift).collect()),
        Value::Object(m) => Json::Object(m.iter().map(|(k, v)| (k.clone(), lift(v))).collect()),
    }
}

/// Carries a [`Json`] over into a `serde_json::Value`, variant by variant; the text
/// of a `Float` is read back with `serde_json::from_str`, and is `null` where that
/// fails.
#[verifier::external_body]
fn lower(doc: &Json) -> Value {
    match doc {
        Json::Null => Value::Null,
        Json::Bool(b) => Value::Bool(*b),
        Json::Unsigned(u) => Value::from(*u),
        Json::Signed(i) => Value::from(*i),
        Json::Float(t) => serde_json::from_str(t).unwrap_or(Value::Null),
        Json::Text(t) => Value::String(t.clone()),
        Json::Array(items) => Value::Array(items.iter().map(lower).collect()),
        Json::Object(m) => Value::Object(m.iter().map(|(k, v)| (k.clone(), lower(v))).collect()),
    }
}

/// `serde_json::from_slice` for a `serde_json::Value`: the document read, by its
/// content, or `None` where the bytes are rejected. The result is a function of the
/// bytes alone.
#[verifier::external_body]
fn read_document(bytes: &[u8]) -> (doc: Option<Json>)
    ensures
        document_view(doc) == json_document(bytes@),
{
    match serde_json::from_slice::<Value>(bytes) {
        Ok(value) => Some(lift(&value)),
        Err(_) => None,
    }
}

/// `Display` of the `serde_json::Value` that holds `doc`, which writes it with
/// `serde_json::to_writer`: its compact text, a function of the document's content
/// alone.
#[verifier::external_body]
fn write_document(doc: &Json) -> (text: String)
    ensures
        text@ == json_text(doc@),
{
    lower(doc).to_string()
}

/// `Display` in its alternate form of the `serde_json::Value` that holds `doc`, which
/// writes it with `serde_json::to_writer_pretty`: its indented text, a function of the
/// document's content alone.
#[verifier::external_body]
fn write_document_pretty(doc: &Json) -> (text: String)
    ensures
        text@ == json_pretty_text(doc@),
{
    format!("{:#}", lower(doc))
}

/// Reads a JSON document from bytes.
pub fn parse(bytes: &[u8]) -> (doc: Option<Json>)
    ensures
        document_view(doc) == json_document(bytes@),
{
    read_document(bytes)
}

/// Reads a JSON document from a string.
pub fn parse_text(text: &str) -> (doc: Option<Json>)
    ensures
        document_view(doc) == json_document(text.spec_bytes()),
{
    read_document(text.as_bytes())
}

impl Json {
    /// Writes the document as compact JSON text.
    pub fn to_text(&self) -> (text: String)
        ensures
            text@ == json_text(self@),
    {
        write_document(self)
    }

    /// Writes the document as indented JSON text.
    pub fn to_pretty_text(&self) -> (text: String)
        ensures
            text@ == json_pretty_text(self@),
    {
        write_document_pretty(self)
    }

    /// The member `key` of an object.
    pub fn member<'a>(&'a self, key: &str) -> (found: Option<&'a Json>)
        ensures
            self@.member(key@) == match found {
                Some(j) => Some(j@),
                None => None,
            },
    {
        match self {
            Json::Object(members) => {
                proof {
                    lemma_object_view(*members);
                }
                let ghost all = object_view(members@);
                let mut i: usize = members.len();
                assert(all.take(i as int) =~= all);
                while i > 0
                    invariant
                        i <= members.len(),
                        all == object_view(members@),
                        self@.member(key@) == find_member(all.take(i as int), key@),
                    decreases i,
                {
                    i -= 1;
                    assert(all.take(i + 1).last() == all[i as int]);
                    assert(all.take(i + 1).drop_last() =~= all.take(i as int));
                    if same_text(members[i].0.as_str(), key) {
                        return Some(&members[i].1);
                    }
                }
                None
            },
            _ => None,
        }
    }

    /// The characters of a string.
    pub fn as_text<'a>(&'a self) -> (text: Option<&'a String>)
        ensures
            self@.as_text() == match text {
                Some(t) => Some(t@),
                None => None,
            },
    {
        match self {
            Json::Text(t) => Some(t),
            _ => None,
        }
    }

    /// The value of a boolean.
    pub fn as_bool(&self) -> (flag: Option<bool>)
        ensures
            flag == self@.as_bool(),
    {
        match self {
            Json::Bool(b) => Some(*b),
            _ => None,
        }
    }

    /// The items of an array.
    pub fn as_array<'a>(&'a self) -> (items: Option<&'a Vec<Json>>)
        ensures
            self@.as_array() == match items {
                Some(v) => Some(array_view(v@)),
                None => None,
            },
    {
        match self {
            Json::Array(items) => {
                proof {
                    lemma_array_view(*items);
                }
                Some(items)
            },
            _ => None,
        }
    }

    /// The characters of the member `key`, where it is there and is a string.
    pub fn text_member<'a>(&'a self, key: &str) -> (text: Option<&'a String>)
        ensures
            self@.text_member(key@) == match text {
                Some(t) => Some(t@),
                None => None,
            },
    {
        match self.member(key) {
            Some(value) => value.as_text(),
            None => None,
        }
    }

    /// The value of the member `key`, where it is there and is a boolean.
    pub fn bool_member(&self, key: &str) -> (flag: Option<bool>)
        ensures
            flag == self@.bool_member(key@),
    {
        match self.member(key) {
            Some(value) => value.as_bool(),
            None => None,
        }
    }

    /// The items of the member `key`, where it is there and is an array.
    pub fn array_member<'a>(&'a self, key: &str) -> (items: Option<&'a Vec<Json>>)
        ensures
            self@.array_member(key@) == match items {
                Some(v) => Some(array_view(v@)),
                None => None,
            },
    {
        match self.member(key) {
            Some(value) => value.as_array(),
            None => None,
        }
    }
}

} // verus!
