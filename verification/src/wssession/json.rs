use vstd::prelude::*;

verus! {

/// A JSON document, held as plain values.
///
/// An object holds its members as pairs of name and value. In a document that
/// comes out of `Json::parse` no name stands twice.
#[derive(Debug, PartialEq)]
pub enum Json {
    Null,
    Bool(bool),
    /// A number, as its decimal text.
    Number(String),
    Text(String),
    List(Vec<Json>),
    Object(Vec<(String, Json)>),
}

/// `serde_json::Value`, the tree that the parser builds. It is handed from
/// the parser to the conversion and not looked into.
#[verifier::external_type_specification]
#[verifier::external_body]
pub struct ExValue(serde_json::Value);

/// The document that a `serde_json::Value` holds.
pub uninterp spec fn json_of(value: serde_json::Value) -> Json;

/// What `serde_json::from_str` makes of a text: the document it holds, or the
/// message of the error with which the text is refused.
pub uninterp spec fn parsed_json(text: Seq<char>) -> Result<Json, Seq<char>>;

/// A parsing outcome with the error message as a sequence of characters.
pub open spec fn parsed_view(outcome: Result<Json, String>) -> Result<Json, Seq<char>> {
    match outcome {
        Ok(json) => Ok(json),
        Err(message) => Err(message@),
    }
}

/// The value among `fields` that stands under the first name equal to `key`.
pub open spec fn first_named(fields: Seq<(String, Json)>, key: Seq<char>) -> Option<Json>
    decreases fields.len(),
{
    if fields.len() == 0 {
        None
    } else if fields[0].0@ == key {
        Some(fields[0].1)
    } else {
        first_named(fields.drop_first(), key)
    }
}

/// Calls `serde_json::from_str` for a `serde_json::Value` and, where the text
/// is refused, takes the message that the error displays. The parser reads a
/// text the same way every time: what comes back is what `parsed_json` names
/// for that text, the document being the one that the tree holds.
#[verifier::external_body]
fn parse_value(text: &str) -> (outcome: Result<serde_json::Value, String>)
    ensures
        match outcome {
            Ok(value) => parsed_json(text@) == Ok::<Json, Seq<char>>(json_of(value)),
            Err(message) => parsed_json(text@) == Err::<Json, Seq<char>>(message@),
        },
{
    serde_json::from_str::<serde_json::Value>(text).map_err(|error| error.to_string())
}

/// Rebuilds a `serde_json::Value` as a `Json`, variant by variant: the items
/// of an array and the members of an object in the order in which
/// `into_iter` hands them out, a number as the text that `serde_json::Number`
/// displays. The result is the document that `json_of` names for the tree.
#[verifier::external_body]
fn json_from_value(value: serde_json::Value) -> (json: Json)
    ensures
        json == json_of(value),
{
    match value {
        serde_json::Value::Null => Json::Null,
        serde_json::Value::Bool(flag) => Json::Bool(flag),
        serde_json::Value::Number(number) => Json::Number(number.to_string()),
        serde_json::Value::String(text) => Json::Text(text),
        serde_json::Value::Array(items) => Json::List(items.into_iter().map(json_from_value).collect()),
        serde_json::Value::Object(fields) => Json::Object(
            fields.into_iter().map(|(name, member)| (name, json_from_value(member))).collect(),
        ),
    }
}

impl Json {
    /// The member of this object named `key`.
    pub open spec fn member(self, key: Seq<char>) -> Option<Json> {
        match self {
            Json::Object(fields) => first_named(fields@, key),
            _ => None,
        }
    }

    /// The characters of this value, where it is a string.
    pub open spec fn text(self) -> Option<Seq<char>> {
        match self {
            Json::Text(text) => Some(text@),
            _ => None,
        }
    }

    /// Reads `text` as a JSON document; a text that is none gives the
    /// parser's message.
    pub fn parse(text: &str) -> (outcome: Result<Json, String>)
        ensures
            parsed_view(outcome) == parsed_json(text@),
    {
        match parse_value(text) {
            Ok(value) => Ok(json_from_value(value)),
            Err(message) => Err(message),
        }
    }

    /// Looks up the member named `key`; `None` where this is no object or has
    /// no such member.
    pub fn get(&self, key: &str) -> (found: Option<&Json>)
        ensures
            found == match self.member(key@) {
                Some(json) => Some(&json),
                None => None,
            },
    {
        match self {
            Json::Object(fields) => {
                let wanted = String::from_str(key);
                let mut i: usize = 0;
                assert(fields@.skip(0) == fields@);
                while i < fields.len()
                    invariant
                        i <= fields.len(),
                        wanted@ == key@,
                        self.member(key@) == first_named(fields@, key@),
                        first_named(fields@, key@) == first_named(fields@.skip(i as int), key@),
                    decreases fields.len() - i,
                {
                    assert(fields@.skip(i as int).len() > 0);
                    assert(fields@.skip(i as int)[0] == fields@[i as int]);
                    assert(fields@.skip(i as int).drop_first() == fields@.skip(i + 1));
                    if fields[i].0 == wanted {
                        return Some(&fields[i].1);
                    }
                    i += 1;
                }
                None
            },
            _ => None,
        }
    }

    /// The string this value holds; `None` where it is of another kind.
    pub fn as_str(&self) -> (found: Option<&str>)
        ensures
            found is Some == self.text() is Some,
            found matches Some(text) ==> Some(text@) == self.text(),
    {
        match self {
            Json::Text(text) => Some(text.as_str()),
            _ => None,
        }
    }
}

} // verus!
