use vstd::prelude::*;

verus! {

/// A JSON document, holding as plain values what the chat logic reads.
#[derive(Debug)]
pub enum Json {
    Null,
    Bool(bool),
    /// A number that is a non-negative integer fitting in 64 bits.
    UInt(u64),
    /// Any other number (negative or fractional); its value is never read.
    OtherNumber,
    Str(String),
    Array(Vec<Json>),
    /// The members of an object, in order; a key is looked up at its first
    /// entry.
    Object(Vec<(String, Json)>),
}

/// The value of the first entry at or after `i` whose key is `key`.
pub open spec fn entry_from(entries: Seq<(String, Json)>, key: Seq<char>, i: int) -> Option<Json>
    decreases entries.len() - i,
{
    if i < 0 || i >= entries.len() {
        None
    } else if entries[i].0@ == key {
        Some(entries[i].1)
    } else {
        entry_from(entries, key, i + 1)
    }
}

/// The member `key` of `j`, where `j` is present and is an object holding it.
pub open spec fn key_of(j: Option<Json>, key: Seq<char>) -> Option<Json> {
    match j {
        Some(Json::Object(entries)) => entry_from(entries@, key, 0),
        _ => None,
    }
}

/// The element `i` of `j`, where `j` is present and is an array that long.
pub open spec fn idx_of(j: Option<Json>, i: int) -> Option<Json> {
    match j {
        Some(Json::Array(items)) => if 0 <= i < items@.len() {
            Some(items@[i])
        } else {
            None
        },
        _ => None,
    }
}

/// The characters of `j`, where `j` is present and is a string.
pub open spec fn text_of(j: Option<Json>) -> Option<Seq<char>> {
    match j {
        Some(Json::Str(s)) => Some(s@),
        _ => None,
    }
}

/// The characters of `j` where it is a string, and the empty text otherwise.
pub open spec fn text_or_empty(j: Option<Json>) -> Seq<char> {
    match text_of(j) {
        Some(t) => t,
        None => Seq::empty(),
    }
}

/// The value of `j`, where `j` is present and is a non-negative integer.
pub open spec fn uint_of(j: Option<Json>) -> Option<u64> {
    match j {
        Some(Json::UInt(n)) => Some(n),
        _ => None,
    }
}

/// The elements of `j`, where `j` is present and is an array.
pub open spec fn items_of(j: Option<Json>) -> Option<Seq<Json>> {
    match j {
        Some(Json::Array(items)) => Some(items@),
        _ => None,
    }
}

/// The value that an optional reference points to.
pub open spec fn deref_opt(r: Option<&Json>) -> Option<Json> {
    match r {
        Some(v) => Some(*v),
        None => None,
    }
}

/// What parsing `text` as a JSON document gives: `None` where it is not one.
pub uninterp spec fn parsed_json(text: Seq<char>) -> Option<Json>;

impl Json {
    /// Reads a JSON document from its text; none where the text is not one.
    pub fn parse(text: &str) -> (r: Option<Json>)
        ensures
            r == parsed_json(text@),
    {
        decode_json(text)
    }

    /// The member `key` of this value, where it is an object holding it.
    pub fn get(&self, key: &str) -> (r: Option<&Json>)
        ensures
            deref_opt(r) == key_of(Some(*self), key@),
    {
        match self {
            Json::Object(entries) => {
                let k = String::from_str(key);
                let mut i: usize = 0;
                while i < entries.len()
                    invariant
                        0 <= i <= entries@.len(),
                        k@ == key@,
                        key_of(Some(*self), key@) == entry_from(entries@, key@, 0),
                        entry_from(entries@, key@, 0) == entry_from(entries@, key@, i as int),
                    decreases entries@.len() - i,
                {
                    if entries[i].0 == k {
                        assert(entry_from(entries@, key@, i as int) == Some(entries@[i as int].1));
                        return Some(&entries[i].1);
                    }
                    i = i + 1;
                }
                None
            },
            _ => None,
        }
    }

    /// The element `i` of this value, where it is an array that long.
    pub fn at(&self, i: usize) -> (r: Option<&Json>)
        ensures
            deref_opt(r) == idx_of(Some(*self), i as int),
    {
        match self {
            Json::Array(items) => if i < items.len() {
                Some(&items[i])
            } else {
                None
            },
            _ => None,
        }
    }

    /// The text of this value, where it is a string.
    pub fn as_str(&self) -> (r: Option<&String>)
        ensures
            r matches Some(s) ==> text_of(Some(*self)) == Some(s@),
            r is None ==> text_of(Some(*self)) is None,
    {
        match self {
            Json::Str(s) => Some(s),
            _ => None,
        }
    }

    /// The value of this number, where it is a non-negative integer.
    pub fn as_u64(&self) -> (r: Option<u64>)
        ensures
            r == uint_of(Some(*self)),
    {
        match self {
            Json::UInt(n) => Some(*n),
            _ => None,
        }
    }

    /// The elements of this value, where it is an array.
    pub fn as_array(&self) -> (r: Option<&Vec<Json>>)
        ensures
            r matches Some(v) ==> items_of(Some(*self)) == Some(v@),
            r is None ==> items_of(Some(*self)) is None,
    {
        match self {
            Json::Array(items) => Some(items),
            _ => None,
        }
    }
}

/// The member `key` of `j`, where `j` is present and is an object holding it.
pub fn member<'a>(j: Option<&'a Json>, key: &str) -> (r: Option<&'a Json>)
    ensures
        deref_opt(r) == key_of(deref_opt(j), key@),
{
    match j {
        Some(v) => v.get(key),
        None => None,
    }
}

/// The element `i` of `j`, where `j` is present and is an array that long.
pub fn element<'a>(j: Option<&'a Json>, i: usize) -> (r: Option<&'a Json>)
    ensures
        deref_opt(r) == idx_of(deref_opt(j), i as int),
{
    match j {
        Some(v) => v.at(i),
        None => None,
    }
}

/// A copy of the text of `j`, where `j` is present and is a string.
pub fn text(j: Option<&Json>) -> (r: Option<String>)
    ensures
        r matches Some(s) ==> text_of(deref_opt(j)) == Some(s@),
        r is None ==> text_of(deref_opt(j)) is None,
{
    match j {
        Some(v) => match v.as_str() {
            Some(s) => Some(s.clone()),
            None => None,
        },
        None => None,
    }
}

/// A copy of the text of `j` where it is a string, and the empty text otherwise.
pub fn text_or_default(j: Option<&Json>) -> (r: String)
    ensures
        r@ == text_or_empty(deref_opt(j)),
{
    match text(j) {
        Some(s) => s,
        None => String::new(),
    }
}

/// The value of `j`, where `j` is present and is a non-negative integer.
pub fn uint(j: Option<&Json>) -> (r: Option<u64>)
    ensures
        r == uint_of(deref_opt(j)),
{
    match j {
        Some(v) => v.as_u64(),
        None => None,
    }
}

/// Relies on serde_json::from_str: the document that `text` holds, if any.
#[verifier::external_body]
fn decode_json(text: &str) -> (r: Option<Json>)
    ensures
        r == parsed_json(text@),
{
    serde_json::from_str::<serde_json::Value>(text).ok().map(json_from_value)
}

/// A parsed serde_json document, carried only into the conversion below.
#[verifier::external_type_specification]
#[verifier::external_body]
pub struct ExValue(serde_json::Value);

/// Relies on serde_json::Value's variants and Number::as_u64: converts a
/// parsed document into the library's own form, one value for one.
#[verifier::external_body]
fn json_from_value(v: serde_json::Value) -> Json {
    match v {
        serde_json::Value::Null => Json::Null,
        serde_json::Value::Bool(b) => Json::Bool(b),
        serde_json::Value::Number(n) => match n.as_u64() {
            Some(u) => Json::UInt(u),
            None => Json::OtherNumber,
        },
        serde_json::Value::String(s) => Json::Str(s),
        serde_json::Value::Array(a) => Json::Array(a.into_iter().map(json_from_value).collect()),
        serde_json::Value::Object(m) => Json::Object(
            m.into_iter().map(|(k, v)| (k, json_from_value(v))).collect(),
        ),
    }
}

} // verus!
