//! JSON documents: the mathematical model `Json`, the executable `JsonValue`,
//! reading one out of text and writing it as compact text (both through
//! `serde_json`), and looking things up in it.

use vstd::prelude::*;

use crate::text::digit_char;

verus! {

/// The mathematical model of a JSON document. A number is kept as the text
/// that denotes it together with its value when that is a non-negative 64-bit
/// integer; an object keeps its members in order.
pub enum Json {
    Null,
    Bool(bool),
    Number(Seq<char>, Option<u64>),
    Str(Seq<char>),
    Array(Seq<Json>),
    Object(Seq<(Seq<char>, Json)>),
}

/// A JSON document in memory, as read by `serde_json`. A number holds the
/// text that `serde_json` prints for it and what its `as_u64` gives; an object
/// holds its members in the order of `serde_json`'s map.
#[derive(Debug, PartialEq, Eq)]
pub enum JsonValue {
    Null,
    Bool(bool),
    Number(String, Option<u64>),
    Str(String),
    Array(Vec<JsonValue>),
    Object(Vec<(String, JsonValue)>),
}

/// The model of an in-memory document.
pub open spec fn json_of(v: JsonValue) -> Json
    decreases v, 1nat,
{
    match v {
        JsonValue::Null => Json::Null,
        JsonValue::Bool(b) => Json::Bool(b),
        JsonValue::Number(t, u) => Json::Number(t@, u),
        JsonValue::Str(s) => Json::Str(s@),
        JsonValue::Array(items) => Json::Array(json_of_items(items@)),
        JsonValue::Object(members) => Json::Object(json_of_members(members@)),
    }
}

/// The models of a run of documents.
pub open spec fn json_of_items(items: Seq<JsonValue>) -> Seq<Json>
    decreases items, 0nat,
{
    if items.len() == 0 {
        Seq::empty()
    } else {
        json_of_items(items.drop_last()).push(json_of(items.last()))
    }
}

/// The models of a run of object members.
pub open spec fn json_of_members(members: Seq<(String, JsonValue)>) -> Seq<(Seq<char>, Json)>
    decreases members, 0nat,
{
    if members.len() == 0 {
        Seq::empty()
    } else {
        json_of_members(members.drop_last()).push(
            (members.last().0@, json_of(members.last().1)),
        )
    }
}

impl View for JsonValue {
    type V = Json;

    open spec fn view(&self) -> Json {
        json_of(*self)
    }
}

pub proof fn lemma_json_of_items(items: Seq<JsonValue>)
    ensures
        json_of_items(items).len() == items.len(),
        forall|i: int| 0 <= i < items.len() ==> #[trigger] json_of_items(items)[i] == json_of(items[i]),
    decreases items.len(),
{
    if items.len() > 0 {
        lemma_json_of_items(items.drop_last());
    }
}

pub proof fn lemma_json_of_members(members: Seq<(String, JsonValue)>)
    ensures
        json_of_members(members).len() == members.len(),
        forall|i: int|
            0 <= i < members.len() ==> #[trigger] json_of_members(members)[i] == (
                members[i].0@,
                json_of(members[i].1),
            ),
    decreases members.len(),
{
    if members.len() > 0 {
        lemma_json_of_members(members.drop_last());
    }
}

/// The value of the first member named `key`, if there is one.
pub open spec fn member_of(members: Seq<(Seq<char>, Json)>, key: Seq<char>) -> Option<Json>
    decreases members.len(),
{
    if members.len() == 0 {
        None
    } else if members[0].0 == key {
        Some(members[0].1)
    } else {
        member_of(members.drop_first(), key)
    }
}

impl Json {
    /// The member `key` of an object; `None` for a missing key or a document
    /// that is not an object.
    pub open spec fn member(self, key: Seq<char>) -> Option<Json> {
        match self {
            Json::Object(members) => member_of(members, key),
            _ => None,
        }
    }

    /// The element at `i` of an array; `None` out of bounds or for a document
    /// that is not an array.
    pub open spec fn element(self, i: int) -> Option<Json> {
        match self {
            Json::Array(items) => if 0 <= i < items.len() {
                Some(items[i])
            } else {
                None
            },
            _ => None,
        }
    }

    /// `document[key]`: the member, or `null` where there is none.
    pub open spec fn at(self, key: Seq<char>) -> Json {
        match self.member(key) {
            Some(v) => v,
            None => Json::Null,
        }
    }

    /// `document[i]`: the element, or `null` where there is none.
    pub open spec fn at_index(self, i: int) -> Json {
        match self.element(i) {
            Some(v) => v,
            None => Json::Null,
        }
    }

    /// The text of a string document.
    pub open spec fn text(self) -> Option<Seq<char>> {
        match self {
            Json::Str(s) => Some(s),
            _ => None,
        }
    }

    /// The value of a number document that is a non-negative integer that fits
    /// in 64 bits (`as_u64`); `None` for any other document.
    pub open spec fn unsigned(self) -> Option<u64> {
        match self {
            Json::Number(_, u) => u,
            _ => None,
        }
    }
}

/// The lower-case hexadecimal digit of `d < 16`.
pub open spec fn hex_digit(d: nat) -> char {
    if d < 10 {
        digit_char(d)
    } else {
        ((87 + d) as u8) as char
    }
}

/// How one character is written inside a JSON string literal: quote and
/// backslash are escaped, the control characters below U+0020 use their short
/// escape or `\u00XX`, every other character stands for itself.
pub open spec fn escape_char(c: char) -> Seq<char> {
    if c == '"' {
        seq!['\\', '"']
    } else if c == '\\' {
        seq!['\\', '\\']
    } else if c == '\u{8}' {
        seq!['\\', 'b']
    } else if c == '\t' {
        seq!['\\', 't']
    } else if c == '\n' {
        seq!['\\', 'n']
    } else if c == '\u{c}' {
        seq!['\\', 'f']
    } else if c == '\r' {
        seq!['\\', 'r']
    } else if (c as u32) < 0x20 {
        seq!['\\', 'u', '0', '0', hex_digit(((c as u32) / 16) as nat), hex_digit(((c as u32) % 16) as nat)]
    } else {
        seq![c]
    }
}

/// The characters of `s`, each written as `escape_char` writes it.
pub open spec fn escaped(s: Seq<char>) -> Seq<char>
    decreases s.len(),
{
    if s.len() == 0 {
        Seq::empty()
    } else {
        escaped(s.drop_last()) + escape_char(s.last())
    }
}

/// The JSON string literal of `s`.
pub open spec fn quoted(s: Seq<char>) -> Seq<char> {
    seq!['"'] + escaped(s) + seq!['"']
}

/// `null`, `true`, `false`, a number's text, or a string literal.
pub open spec fn scalar_text(j: Json) -> Seq<char> {
    match j {
        Json::Null => seq!['n', 'u', 'l', 'l'],
        Json::Bool(b) => if b {
            seq!['t', 'r', 'u', 'e']
        } else {
            seq!['f', 'a', 'l', 's', 'e']
        },
        Json::Number(t, _) => t,
        Json::Str(s) => quoted(s),
        _ => Seq::empty(),
    }
}

/// The compact text of a document, as `serde_json` writes it: no white space,
/// elements and members separated by commas, `:` after each key.
pub open spec fn compact_text(j: Json) -> Seq<char>
    decreases j, 1nat,
{
    match j {
        Json::Array(items) => seq!['['] + compact_items(items) + seq![']'],
        Json::Object(members) => seq!['{'] + compact_members(members) + seq!['}'],
        _ => scalar_text(j),
    }
}

pub open spec fn compact_items(items: Seq<Json>) -> Seq<char>
    decreases items, 0nat,
{
    if items.len() == 0 {
        Seq::empty()
    } else {
        compact_items(items.drop_last()) + (if items.len() > 1 {
            seq![',']
        } else {
            Seq::empty()
        }) + compact_text(items.last())
    }
}

pub open spec fn compact_members(members: Seq<(Seq<char>, Json)>) -> Seq<char>
    decreases members, 0nat,
{
    if members.len() == 0 {
        Seq::empty()
    } else {
        compact_members(members.drop_last()) + (if members.len() > 1 {
            seq![',']
        } else {
            Seq::empty()
        }) + quoted(members.last().0) + seq![':'] + compact_text(members.last().1)
    }
}

/// `a` comes strictly before `b` in the order of Rust's `String` (byte order
/// of UTF-8, which is the order of code points).
pub open spec fn key_less(a: Seq<char>, b: Seq<char>) -> bool
    decreases a.len(),
{
    if b.len() == 0 {
        false
    } else if a.len() == 0 {
        true
    } else if a[0] != b[0] {
        (a[0] as u32) < (b[0] as u32)
    } else {
        key_less(a.drop_first(), b.drop_first())
    }
}

/// The members of every object in the document come in strictly ascending
/// key order (so no key repeats), as in `serde_json`'s map.
pub open spec fn keys_ascending(j: Json) -> bool
    decreases j, 1nat,
{
    match j {
        Json::Array(items) => items_keys_ascending(items),
        Json::Object(members) => members_keys_ascending(members),
        _ => true,
    }
}

pub open spec fn items_keys_ascending(items: Seq<Json>) -> bool
    decreases items, 0nat,
{
    items.len() == 0 || (items_keys_ascending(items.drop_last()) && keys_ascending(items.last()))
}

pub open spec fn members_keys_ascending(members: Seq<(Seq<char>, Json)>) -> bool
    decreases members, 0nat,
{
    members.len() == 0 || (members_keys_ascending(members.drop_last()) && keys_ascending(
        members.last().1,
    ) && (members.len() > 1 ==> key_less(members[members.len() - 2].0, members.last().0)))
}

/// A JSON document that this library writes: it holds no numbers.
#[derive(Debug, PartialEq, Eq)]
pub enum JsonTree {
    Null,
    Bool(bool),
    Str(String),
    Array(Vec<JsonTree>),
    Object(Vec<(String, JsonTree)>),
}

/// The model of a document to be written.
pub open spec fn json_of_tree(t: JsonTree) -> Json
    decreases t, 1nat,
{
    match t {
        JsonTree::Null => Json::Null,
        JsonTree::Bool(b) => Json::Bool(b),
        JsonTree::Str(s) => Json::Str(s@),
        JsonTree::Array(items) => Json::Array(json_of_tree_items(items@)),
        JsonTree::Object(members) => Json::Object(json_of_tree_members(members@)),
    }
}

pub open spec fn json_of_tree_items(items: Seq<JsonTree>) -> Seq<Json>
    decreases items, 0nat,
{
    if items.len() == 0 {
        Seq::empty()
    } else {
        json_of_tree_items(items.drop_last()).push(json_of_tree(items.last()))
    }
}

pub open spec fn json_of_tree_members(members: Seq<(String, JsonTree)>) -> Seq<(Seq<char>, Json)>
    decreases members, 0nat,
{
    if members.len() == 0 {
        Seq::empty()
    } else {
        json_of_tree_members(members.drop_last()).push(
            (members.last().0@, json_of_tree(members.last().1)),
        )
    }
}

impl View for JsonTree {
    type V = Json;

    open spec fn view(&self) -> Json {
        json_of_tree(*self)
    }
}

pub proof fn lemma_json_of_tree_members(members: Seq<(String, JsonTree)>)
    ensures
        json_of_tree_members(members).len() == members.len(),
        forall|i: int|
            0 <= i < members.len() ==> #[trigger] json_of_tree_members(members)[i] == (
                members[i].0@,
                json_of_tree(members[i].1),
            ),
    decreases members.len(),
{
    if members.len() > 0 {
        lemma_json_of_tree_members(members.drop_last());
    }
}

/// The document type of `serde_json`, carried opaquely into the one function
/// that turns it into a `JsonValue`.
#[verifier::external_type_specification]
#[verifier::external_body]
pub struct ExSerdeJsonValue(serde_json::Value);

/// The document that `serde_json::from_str` reads out of `text`; `None` where
/// it reports an error.
pub uninterp spec fn json_document(text: Seq<char>) -> Option<Json>;

/// The message (`Display` of the error) that `serde_json::from_str` reports for `text`.
pub uninterp spec fn json_error_message(text: Seq<char>) -> Seq<char>;

/// Calls `serde_json::from_str::<serde_json::Value>` on `text` and keeps the
/// result as a `JsonValue`. The contract names the outcome: the document is
/// `json_document(text)` and the error message `json_error_message(text)`;
/// the JSON grammar that `serde_json` accepts is not restated here. A
/// `Value` object is a `BTreeMap` (the `preserve_order` feature is off), so
/// its members come out with strictly ascending keys.
#[verifier::external_body]
pub(crate) fn parse_json(text: &str) -> (r: Result<JsonValue, String>)
    ensures
        match r {
            Ok(v) => json_document(text@) == Some(v@) && keys_ascending(v@),
            Err(e) => json_document(text@) is None && e@ == json_error_message(text@),
        },
{
    match serde_json::from_str::<serde_json::Value>(text) {
        Ok(v) => Ok(json_value_from_serde(v)),
        Err(e) => Err(e.to_string()),
    }
}

/// Moves a `serde_json::Value` into a `JsonValue`, variant for variant; a
/// number keeps the text that its `Display` writes and what its `as_u64`
/// gives, an object its members in the map's order. Only `parse_json` calls it.
#[verifier::external_body]
fn json_value_from_serde(v: serde_json::Value) -> JsonValue {
    match v {
        serde_json::Value::Null => JsonValue::Null,
        serde_json::Value::Bool(b) => JsonValue::Bool(b),
        serde_json::Value::Number(n) => JsonValue::Number(n.to_string(), n.as_u64()),
        serde_json::Value::String(s) => JsonValue::Str(s),
        serde_json::Value::Array(a) => JsonValue::Array(a.into_iter().map(json_value_from_serde).collect()),
        serde_json::Value::Object(m) => JsonValue::Object(
            m.into_iter().map(|(k, x)| (k, json_value_from_serde(x))).collect(),
        ),
    }
}

/// The member `key` of an object (the first one, should the name repeat).
pub fn member<'a>(v: &'a JsonValue, key: &String) -> (r: Option<&'a JsonValue>)
    ensures
        match r {
            Some(x) => v@.member(key@) == Some(x@),
            None => v@.member(key@) is None,
        },
{
    match v {
        JsonValue::Object(members) => {
            let ghost m = json_of_members(members@);
            proof {
                lemma_json_of_members(members@);
                assert(m.skip(0) =~= m);
            }
            let mut i: usize = 0;
            while i < members.len()
                invariant
                    i <= members.len(),
                    m == json_of_members(members@),
                    v@ == Json::Object(m),
                    m.len() == members.len(),
                    forall|k: int| 0 <= k < members.len() ==> #[trigger] m[k] == (members@[k].0@, json_of(members@[k].1)),
                    member_of(m, key@) == member_of(m.skip(i as int), key@),
                decreases members.len() - i,
            {
                assert(m.skip(i as int)[0] == m[i as int]);
                if members[i].0 == *key {
                    assert(member_of(m.skip(i as int), key@) == Some(m[i as int].1));
                    assert(v@ == Json::Object(m));
                    return Some(&members[i].1);
                }
                assert(m.skip(i as int).drop_first() =~= m.skip(i + 1));
                i += 1;
            }
            None
        },
        _ => None,
    }
}

/// The element at `i` of an array.
pub fn element<'a>(v: &'a JsonValue, i: usize) -> (r: Option<&'a JsonValue>)
    ensures
        match r {
            Some(x) => v@.element(i as int) == Some(x@),
            None => v@.element(i as int) is None,
        },
{
    match v {
        JsonValue::Array(items) => {
            proof {
                lemma_json_of_items(items@);
            }
            if i < items.len() {
                Some(&items[i])
            } else {
                None
            }
        },
        _ => None,
    }
}

/// The text of a string document.
pub fn text_of(v: &JsonValue) -> (r: Option<&String>)
    ensures
        match r {
            Some(s) => v@.text() == Some(s@),
            None => v@.text() is None,
        },
{
    match v {
        JsonValue::Str(s) => Some(s),
        _ => None,
    }
}

/// The value of a number document that is a non-negative 64-bit integer.
pub fn unsigned_of(v: &JsonValue) -> (r: Option<u64>)
    ensures
        r == v@.unsigned(),
{
    match v {
        JsonValue::Number(_, u) => *u,
        _ => None,
    }
}

/// Calls `Display::to_string` of `serde_json::Value` (its compact writer) on
/// `t`, moved into a `Value` variant for variant. For a document whose keys
/// ascend, as a `Value`'s map holds them, the text is `compact_text(t)`:
/// `serde_json`'s compact formatter writes `null`, `true`, `false`, string
/// literals escaped by `format_escaped_str` (the table of `escape_char`),
/// arrays and objects with commas between entries and `:` after each key,
/// and no white space.
#[verifier::external_body]
pub(crate) fn compact_json_text(t: &JsonTree) -> (r: String)
    requires
        keys_ascending(t@),
    ensures
        r@ == compact_text(t@),
{
    json_tree_to_serde(t).to_string()
}

/// Moves a `JsonTree` into a `serde_json::Value`, variant for variant. Only
/// `compact_json_text` calls it.
#[verifier::external_body]
fn json_tree_to_serde(t: &JsonTree) -> serde_json::Value {
    match t {
        JsonTree::Null => serde_json::Value::Null,
        JsonTree::Bool(b) => serde_json::Value::Bool(*b),
        JsonTree::Str(s) => serde_json::Value::String(s.clone()),
        JsonTree::Array(a) => serde_json::Value::Array(a.iter().map(json_tree_to_serde).collect()),
        JsonTree::Object(m) => serde_json::Value::Object(
            m.iter().map(|(k, x)| (k.clone(), json_tree_to_serde(x))).collect(),
        ),
    }
}

} // verus!
