//! JSON documents.
//!
//! Parsing text into a tree is left to `serde_json`; this module says what the
//! library relies on from it, and builds verified field readers on top. All
//! contracts are stated over [`Json`], the mathematical model of a document.

use vstd::prelude::*;
use vstd::string::*;

verus! {

/// A JSON tree as `serde_json` holds it. Verus sees nothing inside it; what it
/// stands for is given by [`json_contents`].
#[verifier::external_type_specification]
#[verifier::external_body]
pub struct ExValue(serde_json::Value);

/// Mathematical model of a JSON document.
pub enum Json {
    Null,
    Bool(bool),
    /// A number that `serde_json` holds as an integer.
    Integer(int),
    /// Any other number, given by the 64 bits in which `serde_json` holds
    /// it. The library reads no such number; it only keeps them.
    Real(int),
    String(Seq<char>),
    Array(Seq<Json>),
    Object(Map<Seq<char>, Json>),
}

/// What went wrong when a text was read as a value of some type.
#[derive(Debug)]
pub enum ParseError {
    /// The text is not a JSON document. Holds the parser's message.
    Syntax(String),
    /// The document is well formed but not of the expected structure.
    Schema,
}

/// A [`ParseError`] as a mathematical value.
pub enum ParseErrorView {
    Syntax(Seq<char>),
    Schema,
}

impl View for ParseError {
    type V = ParseErrorView;

    open spec fn view(&self) -> ParseErrorView {
        match self {
            ParseError::Syntax(message) => ParseErrorView::Syntax(message@),
            ParseError::Schema => ParseErrorView::Schema,
        }
    }
}

/// The text that a parse error is reported with.
pub open spec fn parse_error_text(error: ParseErrorView) -> Seq<char> {
    match error {
        ParseErrorView::Syntax(message) => message,
        ParseErrorView::Schema => "the document does not have the expected structure"@,
    }
}

impl ParseError {
    /// The text that the error is reported with: the parser's message for a
    /// syntax error, a fixed sentence for a document of another structure.
    pub fn to_string(&self) -> (s: String)
        ensures
            s@ == parse_error_text(self@),
    {
        match self {
            ParseError::Syntax(message) => message.clone(),
            ParseError::Schema => String::from_str(
                "the document does not have the expected structure",
            ),
        }
    }
}

/// The document that a `serde_json::Value` holds: a string by its
/// characters, an array by the contents of its elements in order, an object
/// by the map from each key to the contents of its value, a number as
/// [`Json::Integer`] or [`Json::Real`] say.
pub uninterp spec fn json_contents(value: serde_json::Value) -> Json;

/// What `serde_json` makes of a text: the document it denotes, or the message
/// of the error that it reports.
pub uninterp spec fn json_document(text: Seq<char>) -> Result<Json, Seq<char>>;

/// `serde_json::from_str::<serde_json::Value>`, with the error turned into
/// its displayed message. Trusted: the outcome is a function of the text
/// alone, named by [`json_document`]; nothing else is claimed of it.
#[verifier::external_body]
fn parse_document(text: &str) -> (r: Result<serde_json::Value, String>)
    ensures
        match r {
            Ok(value) => json_document(text@) == Ok::<Json, Seq<char>>(json_contents(value)),
            Err(message) => json_document(text@) == Err::<Json, Seq<char>>(message@),
        },
{
    match serde_json::from_str::<serde_json::Value>(text) {
        Ok(value) => Ok(value),
        Err(error) => Err(error.to_string()),
    }
}

/// `serde_json::Value::get` with a string key. Trusted: an object yields the
/// value stored under the key, if there is one; anything else yields nothing.
#[verifier::external_body]
fn member<'a>(value: &'a serde_json::Value, key: &str) -> (r: Option<&'a serde_json::Value>)
    ensures
        match field(json_contents(*value), key@) {
            Some(found) => r matches Some(inner) && json_contents(*inner) == found,
            None => r is None,
        },
{
    value.get(key)
}

/// `serde_json::Value::as_str`. Trusted: a string yields its characters,
/// anything else yields nothing.
pub assume_specification<'a>[ serde_json::Value::as_str ](value: &'a serde_json::Value) -> (r:
    Option<&'a str>)
    ensures
        match json_contents(*value) {
            Json::String(text) => r matches Some(t) && t@ == text,
            _ => r is None,
        },
;

/// `serde_json::Value::as_bool`. Trusted: a boolean yields itself, anything
/// else yields nothing.
pub assume_specification[ serde_json::Value::as_bool ](value: &serde_json::Value) -> (r: Option<
    bool,
>)
    ensures
        match json_contents(*value) {
            Json::Bool(b) => r == Some(b),
            _ => r is None,
        },
;

/// `serde_json::Value::as_i64`. Trusted: an integer that fits in `i64`
/// yields itself; a larger integer, any other number and any other value
/// yield nothing.
pub assume_specification[ serde_json::Value::as_i64 ](value: &serde_json::Value) -> (r: Option<
    i64,
>)
    ensures
        match json_contents(*value) {
            Json::Integer(i) => if i <= i64::MAX {
                r matches Some(n) && n == i
            } else {
                r is None
            },
            _ => r is None,
        },
;

/// `serde_json::Value::as_array`. Trusted: an array yields its elements in
/// order, anything else yields nothing.
pub assume_specification<'a>[ serde_json::Value::as_array ](value: &'a serde_json::Value) -> (r:
    Option<&'a Vec<serde_json::Value>>)
    ensures
        match json_contents(*value) {
            Json::Array(items) => r matches Some(elements) && contents(elements@) == items,
            _ => r is None,
        },
;

/// `serde_json::Value::is_null`. Trusted: true for `null` and for nothing
/// else.
pub assume_specification[ serde_json::Value::is_null ](value: &serde_json::Value) -> (r: bool)
    ensures
        r == (json_contents(*value) is Null),
;

/// `Clone::clone` of `serde_json::Value`. Trusted: the copy is equal to the
/// value it was made from.
pub assume_specification[ <serde_json::Value as Clone>::clone ](
    value: &serde_json::Value,
) -> (r: serde_json::Value)
    ensures
        r == *value,
;

/// The documents that a sequence of values holds, one by one.
pub open spec fn contents(values: Seq<serde_json::Value>) -> Seq<Json> {
    Seq::new(values.len(), |i: int| json_contents(values[i]))
}

/// The views of a sequence of values, one by one.
pub open spec fn views<T: View>(items: Seq<T>) -> Seq<T::V> {
    Seq::new(items.len(), |i: int| items[i]@)
}

/// The member of an object under `key`, if `j` is an object that has one.
pub open spec fn field(j: Json, key: Seq<char>) -> Option<Json> {
    match j {
        Json::Object(members) => if members.dom().contains(key) {
            Some(members[key])
        } else {
            None
        },
        _ => None,
    }
}

/// The object `j` says nothing under `key`: the member is missing or `null`.
pub open spec fn absent(j: Json, key: Seq<char>) -> bool {
    field(j, key) is None || field(j, key) == Some(Json::Null)
}

/// A required string member.
pub open spec fn text_field(j: Json, key: Seq<char>) -> Option<Seq<char>> {
    match field(j, key) {
        Some(Json::String(text)) => Some(text),
        _ => None,
    }
}

/// An optional string member: a missing key and `null` both stand for
/// "absent"; any value other than a string is a mismatch (the outer `None`).
pub open spec fn optional_text_field(j: Json, key: Seq<char>) -> Option<Option<Seq<char>>> {
    match field(j, key) {
        None => Some(None),
        Some(Json::Null) => Some(None),
        Some(Json::String(text)) => Some(Some(text)),
        Some(_) => None,
    }
}

/// A required boolean member.
pub open spec fn flag_field(j: Json, key: Seq<char>) -> Option<bool> {
    match field(j, key) {
        Some(Json::Bool(b)) => Some(b),
        _ => None,
    }
}

/// A required integer member that fits in 32 bits, sign included.
pub open spec fn i32_field(j: Json, key: Seq<char>) -> Option<int> {
    match field(j, key) {
        Some(Json::Integer(i)) => if i32::MIN <= i <= i32::MAX {
            Some(i)
        } else {
            None
        },
        _ => None,
    }
}

/// A required array member whose elements are kept as they are.
pub open spec fn values_field(j: Json, key: Seq<char>) -> Option<Seq<Json>> {
    match field(j, key) {
        Some(Json::Array(items)) => Some(items),
        _ => None,
    }
}

/// A required member of type `T`.
pub open spec fn object_field<T: FromJson>(j: Json, key: Seq<char>) -> Option<T::V> {
    match field(j, key) {
        Some(inner) => T::decode(inner),
        None => None,
    }
}

/// An array all of whose elements are of type `T`.
pub open spec fn decode_list<T: FromJson>(j: Json) -> Option<Seq<T::V>> {
    match j {
        Json::Array(items) => if forall|i: int|
            0 <= i < items.len() ==> (#[trigger] T::decode(items[i])) is Some {
            Some(Seq::new(items.len(), |i: int| T::decode(items[i])->0))
        } else {
            None
        },
        _ => None,
    }
}

/// A required array member all of whose elements are of type `T`.
pub open spec fn list_field<T: FromJson>(j: Json, key: Seq<char>) -> Option<Seq<T::V>> {
    match field(j, key) {
        Some(inner) => decode_list::<T>(inner),
        None => None,
    }
}

/// What reading `text` as a `T` gives.
pub open spec fn parse<T: FromJson>(text: Seq<char>) -> Result<T::V, ParseErrorView> {
    match json_document(text) {
        Err(message) => Err(ParseErrorView::Syntax(message)),
        Ok(j) => match T::decode(j) {
            Some(value) => Ok(value),
            None => Err(ParseErrorView::Schema),
        },
    }
}

/// An optional member that is missing or `null` is read as absent, and only
/// a string is read as a text: nothing is made up for a member that is not
/// there, and an empty text is read only from an empty string.
pub proof fn lemma_optional_member(j: Json, key: Seq<char>)
    ensures
        absent(j, key) <==> optional_text_field(j, key) == Some(None::<Seq<char>>),
        forall|text: Seq<char>|
            optional_text_field(j, key) == Some(Some(text)) <==> field(j, key) == Some(
                Json::String(text),
            ),
{
}

/// A required member is read only where it is there and of its type.
pub proof fn lemma_required_member(j: Json, key: Seq<char>)
    ensures
        forall|text: Seq<char>|
            text_field(j, key) == Some(text) <==> field(j, key) == Some(Json::String(text)),
        forall|b: bool| flag_field(j, key) == Some(b) <==> field(j, key) == Some(Json::Bool(b)),
        forall|i: int|
            i32_field(j, key) == Some(i) <==> field(j, key) == Some(Json::Integer(i))
                && i32::MIN <= i <= i32::MAX,
        field(j, key) is None ==> text_field(j, key) is None && flag_field(j, key) is None
            && i32_field(j, key) is None && values_field(j, key) is None,
{
}

/// A type that can be read from a JSON document.
pub trait FromJson: Sized + View {
    /// The value that the document `j` stands for, if it has the structure
    /// of this type.
    spec fn decode(j: Json) -> Option<Self::V>;

    /// Reads a value of this type from a JSON tree.
    fn from_value(value: &serde_json::Value) -> (r: Option<Self>)
        ensures
            match Self::decode(json_contents(*value)) {
                Some(decoded) => r matches Some(read) && read@ == decoded,
                None => r is None,
            },
    ;
}

/// Reads a required string member.
pub fn read_text(object: &serde_json::Value, key: &str) -> (r: Option<String>)
    ensures
        r.deep_view() == text_field(json_contents(*object), key@),
{
    let inner = member(object, key)?;
    let text = inner.as_str()?;
    Some(String::from_str(text))
}

/// Reads an optional string member.
pub fn read_optional_text(object: &serde_json::Value, key: &str) -> (r: Option<Option<String>>)
    ensures
        r.deep_view() == optional_text_field(json_contents(*object), key@),
{
    match member(object, key) {
        None => Some(None),
        Some(inner) => {
            if inner.is_null() {
                Some(None)
            } else {
                let text = inner.as_str()?;
                Some(Some(String::from_str(text)))
            }
        },
    }
}

/// Reads a required boolean member.
pub fn read_flag(object: &serde_json::Value, key: &str) -> (r: Option<bool>)
    ensures
        r == flag_field(json_contents(*object), key@),
{
    let inner = member(object, key)?;
    inner.as_bool()
}

/// Reads a required 32-bit integer member.
pub fn read_i32(object: &serde_json::Value, key: &str) -> (r: Option<i32>)
    ensures
        match i32_field(json_contents(*object), key@) {
            Some(i) => r matches Some(n) && n == i,
            None => r is None,
        },
{
    let inner = member(object, key)?;
    let wide = inner.as_i64()?;
    if -2147483648 <= wide && wide <= 2147483647 {
        Some(wide as i32)
    } else {
        None
    }
}

/// Reads a required array member and keeps its elements as they are.
pub fn read_values(object: &serde_json::Value, key: &str) -> (r: Option<Vec<serde_json::Value>>)
    ensures
        match values_field(json_contents(*object), key@) {
            Some(items) => r matches Some(kept) && contents(kept@) == items,
            None => r is None,
        },
{
    let inner = member(object, key)?;
    let elements = inner.as_array()?;
    let mut kept: Vec<serde_json::Value> = Vec::new();
    let mut i: usize = 0;
    while i < elements.len()
        invariant
            i <= elements.len(),
            kept@ == elements@.subrange(0, i as int),
        decreases elements.len() - i,
    {
        kept.push(elements[i].clone());
        assert(kept@ == elements@.subrange(0, i + 1));
        i += 1;
    }
    assert(kept@ == elements@);
    Some(kept)
}

/// Reads a required member of type `T`.
pub fn read_object<T: FromJson>(object: &serde_json::Value, key: &str) -> (r: Option<T>)
    ensures
        match object_field::<T>(json_contents(*object), key@) {
            Some(decoded) => r matches Some(read) && read@ == decoded,
            None => r is None,
        },
{
    let inner = member(object, key)?;
    T::from_value(inner)
}

/// Reads an array all of whose elements are of type `T`.
pub fn list_from_value<T: FromJson>(value: &serde_json::Value) -> (r: Option<Vec<T>>)
    ensures
        match decode_list::<T>(json_contents(*value)) {
            Some(decoded) => r matches Some(read) && views(read@) == decoded,
            None => r is None,
        },
{
    let elements = value.as_array()?;
    let ghost items = contents(elements@);
    let mut read: Vec<T> = Vec::new();
    let mut i: usize = 0;
    while i < elements.len()
        invariant
            i <= elements.len(),
            items == contents(elements@),
            json_contents(*value) == Json::Array(items),
            read@.len() == i,
            forall|k: int| 0 <= k < i ==> (#[trigger] T::decode(items[k])) == Some(read@[k]@),
        decreases elements.len() - i,
    {
        assert(items[i as int] == json_contents(elements@[i as int]));
        match T::from_value(&elements[i]) {
            Some(element) => {
                read.push(element);
            },
            None => {
                assert(T::decode(items[i as int]) is None);
                return None;
            },
        }
        i += 1;
    }
    assert(views(read@) =~= decode_list::<T>(Json::Array(items))->0);
    Some(read)
}

/// Reads a required array member all of whose elements are of type `T`.
pub fn read_list<T: FromJson>(object: &serde_json::Value, key: &str) -> (r: Option<Vec<T>>)
    ensures
        match list_field::<T>(json_contents(*object), key@) {
            Some(decoded) => r matches Some(read) && views(read@) == decoded,
            None => r is None,
        },
{
    let inner = member(object, key)?;
    list_from_value::<T>(inner)
}

/// Reads `text` as a value of type `T`.
pub fn from_str<T: FromJson>(text: &str) -> (r: Result<T, ParseError>)
    ensures
        match parse::<T>(text@) {
            Ok(decoded) => r matches Ok(read) && read@ == decoded,
            Err(error) => r matches Err(e) && e@ == error,
        },
{
    match parse_document(text) {
        Err(message) => Err(ParseError::Syntax(message)),
        Ok(value) => match T::from_value(&value) {
            Some(read) => Ok(read),
            None => Err(ParseError::Schema),
        },
    }
}

} // verus!
