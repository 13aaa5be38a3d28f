//! The TOML side of the settings file. The `toml` crate parses the text; this
//! module says what the library relies on about the values it hands out.

use vstd::prelude::*;

verus! {

/// What a TOML value holds, as far as a settings file is read: integers,
/// strings and tables are told apart, every other kind of value is `Other`.
pub enum Node {
    Integer(i64),
    Text(Seq<char>),
    Table(Map<Seq<char>, Node>),
    Other,
}

impl Node {
    /// The value that a table holds under `key`; `None` where the key is
    /// missing or `self` is no table.
    pub open spec fn entry(self, key: Seq<char>) -> Option<Node> {
        match self {
            Node::Table(entries) => if entries.contains_key(key) {
                Some(entries[key])
            } else {
                None
            },
            _ => None,
        }
    }
}

/// `toml::Value`, a parsed TOML value. Nothing is known of it but what
/// `content` and the contracts below say.
#[verifier::external_type_specification]
#[verifier::external_body]
pub struct ExValue(toml::Value);

/// `toml::de::Error`, the parser's complaint about a text. It is carried
/// out of the parser and dropped.
#[verifier::external_type_specification]
#[verifier::external_body]
pub struct ExSyntaxError(toml::de::Error);

/// The content of a `toml::Value`: `Value::Integer(i)` is `Node::Integer(i)`,
/// `Value::String(s)` is `Node::Text` of its characters, `Value::Table(t)` is
/// `Node::Table` of the content of each entry under its key, and floats,
/// booleans, date-times and arrays are `Node::Other`.
pub uninterp spec fn content(value: toml::Value) -> Node;

/// What `toml::from_str` makes of a text: the content of the value it
/// returns, or `None` where it rejects the text.
pub uninterp spec fn toml_document(text: Seq<char>) -> Option<Node>;

/// Calls `toml::from_str` for a `toml::Value`. Trusted: the parser's answer
/// depends on the text alone, so it is `toml_document` of the text.
#[verifier::external_body]
pub(crate) fn parse_document(text: &str) -> (r: Result<toml::Value, toml::de::Error>)
    ensures
        match r {
            Ok(root) => toml_document(text@) == Some(content(root)),
            Err(_) => toml_document(text@) is None,
        },
{
    toml::from_str::<toml::Value>(text)
}

/// Calls `toml::Value::get` with a string key. Trusted: on a table that has
/// the key it returns the value stored there, and `None` on a table without
/// the key and on every value that is no table.
#[verifier::external_body]
pub(crate) fn member<'a>(value: &'a toml::Value, key: &str) -> (r: Option<&'a toml::Value>)
    ensures
        match content(*value).entry(key@) {
            Some(node) => r matches Some(found) && content(*found) == node,
            None => r is None,
        },
{
    value.get(key)
}

/// `toml::Value::as_integer` returns the integer of an integer value and
/// `None` for every other kind.
pub assume_specification[ toml::Value::as_integer ](value: &toml::Value) -> (r: Option<i64>)
    ensures
        r == (match content(*value) {
            Node::Integer(i) => Some(i),
            _ => None,
        }),
;

/// `toml::Value::as_str` returns the characters of a string value and `None`
/// for every other kind.
pub assume_specification<'a>[ toml::Value::as_str ](value: &'a toml::Value) -> (r: Option<&'a str>)
    ensures
        match content(*value) {
            Node::Text(text) => r matches Some(s) && s@ == text,
            _ => r is None,
        },
;

/// `toml::Value::is_table` tells whether the value is a table.
pub assume_specification[ toml::Value::is_table ](value: &toml::Value) -> (r: bool)
    ensures
        r == (content(*value) is Table),
;

/// What stands at one key of a section, with the value where the settings
/// can use it.
#[derive(Clone, Debug, PartialEq, Eq)]
pub enum Item {
    /// The key is missing.
    Absent,
    Integer(i64),
    Text(String),
    /// A value that is neither an integer nor a string.
    Other,
}

/// An `Item`, with its string as a sequence of characters.
pub enum ItemView {
    Absent,
    Integer(i64),
    Text(Seq<char>),
    Other,
}

impl View for Item {
    type V = ItemView;

    open spec fn view(&self) -> ItemView {
        match self {
            Item::Absent => ItemView::Absent,
            Item::Integer(i) => ItemView::Integer(*i),
            Item::Text(text) => ItemView::Text(text@),
            Item::Other => ItemView::Other,
        }
    }
}

/// The item that an entry of a table amounts to.
pub open spec fn item_of(entry: Option<Node>) -> ItemView {
    match entry {
        None => ItemView::Absent,
        Some(Node::Integer(i)) => ItemView::Integer(i),
        Some(Node::Text(text)) => ItemView::Text(text),
        Some(_) => ItemView::Other,
    }
}

/// Looks `key` up in `section` and copies out what stands there.
pub fn item_at(section: &toml::Value, key: &str) -> (r: Item)
    ensures
        r@ == item_of(content(*section).entry(key@)),
{
    match member(section, key) {
        None => Item::Absent,
        Some(found) => match found.as_integer() {
            Some(i) => Item::Integer(i),
            None => match found.as_str() {
                Some(text) => Item::Text(text.to_owned()),
                None => Item::Other,
            },
        },
    }
}

} // verus!
