//! JSON: the objects that travel between phone and desktop, read and written with `serde_json`.

use vstd::prelude::*;

use crate::text::text_of;

verus! {

/// A JSON document, or a part of one.
pub enum Json {
    Null,
    Flag(bool),
    /// A natural number.
    Number(nat),
    /// Any other number, as `serde_json` writes it.
    OtherNumber(Seq<char>),
    Text(Seq<char>),
    Array(Seq<Json>),
    Object(Map<Seq<char>, Json>),
}

impl Json {
    /// Whether it is neither an array nor an object, nor a number that is not a natural one.
    pub open spec fn is_scalar(self) -> bool {
        self is Null || self is Flag || self is Number || self is Text
    }

    /// The members of an object; none where it is something else.
    pub open spec fn members(self) -> Map<Seq<char>, Json> {
        match self {
            Json::Object(members) => members,
            _ => no_members(),
        }
    }
}

/// A value that this library writes into a JSON object.
pub enum Scalar {
    Null,
    Flag(bool),
    Number(u32),
    Text(String),
}

impl View for Scalar {
    type V = Json;

    open spec fn view(&self) -> Json {
        match self {
            Scalar::Null => Json::Null,
            Scalar::Flag(b) => Json::Flag(*b),
            Scalar::Number(n) => Json::Number(*n as nat),
            Scalar::Text(s) => Json::Text(s@),
        }
    }
}

/// Whether every member is one that this library writes.
pub open spec fn all_scalar(members: Map<Seq<char>, Json>) -> bool {
    forall|key: Seq<char>| #[trigger] members.contains_key(key) ==> members[key].is_scalar()
}

/// The members of an object that has none.
pub open spec fn no_members() -> Map<Seq<char>, Json> {
    Map::empty()
}

/// The text behind `key`, where a text stands there.
pub open spec fn text_at(members: Map<Seq<char>, Json>, key: Seq<char>) -> Option<Seq<char>> {
    if members.contains_key(key) {
        match members[key] {
            Json::Text(s) => Some(s),
            _ => None,
        }
    } else {
        None
    }
}

/// A parsed JSON document.
#[verifier::external_type_specification]
#[verifier::external_body]
pub struct ExValue(serde_json::Value);

/// A JSON object that is being built.
#[verifier::external_type_specification]
#[verifier::external_body]
#[verifier::reject_recursive_types(K)]
#[verifier::reject_recursive_types(V)]
pub struct ExMap<K, V>(serde_json::Map<K, V>);

/// The members of a JSON object.
pub uninterp spec fn members_of(object: serde_json::Map<String, serde_json::Value>) -> Map<Seq<char>, Json>;

/// What a JSON document is.
pub uninterp spec fn json_in(document: serde_json::Value) -> Json;

/// The outcome of reading a text as JSON: what the document is, or the words in which the reader
/// refuses the text.
pub uninterp spec fn json_read(text: Seq<char>) -> Result<Json, Seq<char>>;

/// The text of a JSON object with these members.
pub uninterp spec fn json_written(members: Map<Seq<char>, Json>) -> Seq<char>;

/// The outcome of a reading that finds an object with these members.
pub open spec fn read_well(members: Map<Seq<char>, Json>) -> Result<Json, Seq<char>> {
    Ok(Json::Object(members))
}

/// The outcome of a reading, as `json_read` puts it.
pub open spec fn outcome_of(reading: Result<serde_json::Value, String>) -> Result<Json, Seq<char>> {
    match reading {
        Ok(document) => Ok(json_in(document)),
        Err(complaint) => Err(complaint@),
    }
}

/// `serde_json::Map::new`: an object without members.
#[verifier::external_body]
fn new_object() -> (r: serde_json::Map<String, serde_json::Value>)
    ensures
        members_of(r) == no_members(),
{
    serde_json::Map::new()
}

/// `serde_json::Map::insert`: the key stands for the value from then on, and the other members
/// stay as they are.
#[verifier::external_body]
fn insert(object: &mut serde_json::Map<String, serde_json::Value>, key: &str, value: Scalar)
    ensures
        members_of(*final(object)) == members_of(*old(object)).insert(key@, value@),
{
    let value = match value {
        Scalar::Null => serde_json::Value::Null,
        Scalar::Flag(b) => serde_json::Value::Bool(b),
        Scalar::Number(n) => serde_json::Value::from(n),
        Scalar::Text(s) => serde_json::Value::String(s),
    };
    object.insert(key.to_owned(), value);
}

/// `to_string` of a `serde_json::Value` that is an object: the compact JSON text of the object.
/// The object keeps its members sorted by key, so the text depends on the members alone, and
/// `serde_json::from_str` reads the same members back from it.
#[verifier::external_body]
fn write(object: serde_json::Map<String, serde_json::Value>) -> (r: String)
    requires
        all_scalar(members_of(object)),
    ensures
        r@ == json_written(members_of(object)),
        json_read(r@) == read_well(members_of(object)),
{
    serde_json::Value::Object(object).to_string()
}

/// The variant `Object` of `serde_json::Value`: a document that is this object.
#[verifier::external_body]
fn document_of(object: serde_json::Map<String, serde_json::Value>) -> (r: serde_json::Value)
    ensures
        json_in(r) == Json::Object(members_of(object)),
{
    serde_json::Value::Object(object)
}

/// `serde_json::from_str` into a `serde_json::Value`, with the reader's complaint as text.
#[verifier::external_body]
fn read(text: &str) -> (r: Result<serde_json::Value, String>)
    ensures
        outcome_of(r) == json_read(text@),
{
    serde_json::from_str(text).map_err(|error| error.to_string())
}

/// Indexing a `serde_json::Value` by a key, and `as_str` of what stands there: the text behind the
/// key, and nothing where there is no such member, where the member is no text, or where the
/// document is no object.
#[verifier::external_body]
fn text_member(document: &serde_json::Value, key: &str) -> (r: Option<String>)
    ensures
        text_of(r) == text_at(json_in(*document).members(), key@),
{
    document[key].as_str().map(str::to_owned)
}

/// A JSON object under construction; its view is the members it has so far.
pub struct Object {
    inner: serde_json::Map<String, serde_json::Value>,
}

impl View for Object {
    type V = Map<Seq<char>, Json>;

    closed spec fn view(&self) -> Map<Seq<char>, Json> {
        members_of(self.inner)
    }
}

impl Object {
    /// An object without members.
    pub fn new() -> (r: Object)
        ensures
            r@ == no_members(),
            all_scalar(r@),
    {
        Object { inner: new_object() }
    }

    /// The object with one more member.
    pub fn with(self, key: &str, value: Scalar) -> (r: Object)
        requires
            all_scalar(self@),
        ensures
            r@ == self@.insert(key@, value@),
            all_scalar(r@),
    {
        let mut inner = self.inner;
        insert(&mut inner, key, value);
        Object { inner }
    }

    /// The object with one more member, a text.
    pub fn with_text(self, key: &str, value: &str) -> (r: Object)
        requires
            all_scalar(self@),
        ensures
            r@ == self@.insert(key@, Json::Text(value@)),
            all_scalar(r@),
    {
        self.with(key, Scalar::Text(value.to_string()))
    }

    /// The JSON text of the object; reading it gives the members back.
    pub fn finish(self) -> (r: String)
        requires
            all_scalar(self@),
        ensures
            r@ == json_written(self@),
            json_read(r@) == read_well(self@),
    {
        write(self.inner)
    }

    /// The object as a document.
    pub fn into_document(self) -> (r: Document)
        ensures
            r@ == Json::Object(self@),
    {
        Document { inner: document_of(self.inner) }
    }
}

/// A JSON document; its view is all that it holds.
pub struct Document {
    inner: serde_json::Value,
}

impl View for Document {
    type V = Json;

    closed spec fn view(&self) -> Json {
        json_in(self.inner)
    }
}

/// A reading, as `json_read` puts it.
pub open spec fn reading_of(reading: Result<Document, String>) -> Result<Json, Seq<char>> {
    match reading {
        Ok(document) => Ok(document@),
        Err(complaint) => Err(complaint@),
    }
}

impl Document {
    /// Reads a text as JSON.
    pub fn parse(text: &str) -> (r: Result<Document, String>)
        ensures
            reading_of(r) == json_read(text@),
    {
        match read(text) {
            Ok(inner) => Ok(Document { inner }),
            Err(complaint) => Err(complaint),
        }
    }

    /// The text behind `key`, where a text stands there.
    pub fn text(&self, key: &str) -> (r: Option<String>)
        ensures
            text_of(r) == text_at(self@.members(), key@),
    {
        text_member(&self.inner, key)
    }

    /// The document as `serde_json` has it.
    pub fn into_value(self) -> (r: serde_json::Value)
        ensures
            json_in(r) == self@,
    {
        self.inner
    }
}

} // verus!
