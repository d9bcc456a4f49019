//! A JSON document model: the values that notification and REST payloads
//! carry, with the lookups the decoders use.

use vstd::prelude::*;

use crate::text::same_text;

verus! {

/// A JSON number as the parser classified it: a non-negative integer, a
/// negative integer, or a number with a fraction or exponent (kept as the
/// text the parser writes for it, such as `0.5`).
#[derive(Clone, Debug)]
pub enum JsonNumber {
    PosInt(u64),
    NegInt(i64),
    Float(String),
}

impl JsonNumber {
    /// An equal copy of the number.
    pub fn duplicate(&self) -> (r: JsonNumber)
        ensures
            r == *self,
    {
        match self {
            JsonNumber::PosInt(u) => JsonNumber::PosInt(*u),
            JsonNumber::NegInt(i) => JsonNumber::NegInt(*i),
            JsonNumber::Float(t) => JsonNumber::Float(t.clone()),
        }
    }
}

/// A JSON value. A key appears at most once in an object; the parser
/// gives the members of an object in the order of their keys.
#[derive(Debug)]
pub enum Json {
    Null,
    Bool(bool),
    Number(JsonNumber),
    String(String),
    Array(Vec<Json>),
    Object(Vec<(String, Json)>),
}

/// Whether two JSON values are the same document: the same kind, the same
/// scalar, text with the same characters, arrays with pairwise the same
/// elements, objects with the same keys in the same order and pairwise the
/// same member values.
pub open spec fn same_json(a: Json, b: Json) -> bool
    decreases a,
{
    match a {
        Json::Null => b is Null,
        Json::Bool(x) => b == Json::Bool(x),
        Json::Number(n) => b == Json::Number(n),
        Json::String(s) => b matches Json::String(t) && t@ == s@,
        Json::Array(x) => b matches Json::Array(y) && y@.len() == x@.len() && forall|i: int|
            0 <= i < x@.len() ==> same_json(#[trigger] x@[i], y@[i]),
        Json::Object(x) => b matches Json::Object(y) && y@.len() == x@.len() && forall|i: int|
            0 <= i < x@.len() ==> (#[trigger] x@[i]).0@ == y@[i].0@ && same_json(x@[i].1, y@[i].1),
    }
}

impl Json {
    /// A copy of the value, member by member and element by element.
    fn duplicate(&self) -> (r: Json)
        ensures
            same_json(*self, r),
        decreases self,
    {
        match self {
            Json::Null => Json::Null,
            Json::Bool(b) => Json::Bool(*b),
            Json::Number(n) => Json::Number(n.duplicate()),
            Json::String(s) => Json::String(s.clone()),
            Json::Array(a) => {
                let mut r: Vec<Json> = Vec::new();
                let mut i: usize = 0;
                while i < a.len()
                    invariant
                        i <= a@.len(),
                        *self == Json::Array(*a),
                        r@.len() == i,
                        forall|k: int| 0 <= k < i ==> same_json(#[trigger] a@[k], r@[k]),
                    decreases a.len() - i,
                {
                    proof {
                        assert(decreases_to!(*self => self->Array_0));
                        assert(decreases_to!(self->Array_0 => self->Array_0@));
                        assert(decreases_to!(self->Array_0@ => self->Array_0@[i as int]));
                    }
                    let d = a[i].duplicate();
                    r.push(d);
                    i = i + 1;
                }
                Json::Array(r)
            },
            Json::Object(m) => {
                let mut r: Vec<(String, Json)> = Vec::new();
                let mut i: usize = 0;
                while i < m.len()
                    invariant
                        i <= m@.len(),
                        *self == Json::Object(*m),
                        r@.len() == i,
                        forall|k: int|
                            0 <= k < i ==> (#[trigger] m@[k]).0@ == r@[k].0@ && same_json(m@[k].1, r@[k].1),
                    decreases m.len() - i,
                {
                    proof {
                        assert(decreases_to!(*self => self->Object_0));
                        assert(decreases_to!(self->Object_0 => self->Object_0@));
                        assert(decreases_to!(self->Object_0@ => self->Object_0@[i as int]));
                        assert(decreases_to!(self->Object_0@[i as int] => self->Object_0@[i as int].1));
                    }
                    let d = m[i].1.duplicate();
                    r.push((m[i].0.clone(), d));
                    i = i + 1;
                }
                Json::Object(r)
            },
        }
    }
}

impl Clone for Json {
    fn clone(&self) -> Json {
        self.duplicate()
    }
}

/// The value of the first member named `key`, if any.
pub open spec fn member(entries: Seq<(String, Json)>, key: Seq<char>) -> Option<Json>
    decreases entries.len(),
{
    if entries.len() == 0 {
        None
    } else if entries[0].0@ == key {
        Some(entries[0].1)
    } else {
        member(entries.drop_first(), key)
    }
}

/// A reference seen as the value it points to.
pub open spec fn deref_opt<'a>(o: Option<&'a Json>) -> Option<Json> {
    match o {
        Some(v) => Some(*v),
        None => None,
    }
}

impl Json {
    /// The member `key` of an object; `None` for other values.
    pub open spec fn field(self, key: Seq<char>) -> Option<Json> {
        match self {
            Json::Object(entries) => member(entries@, key),
            _ => None,
        }
    }

    /// The value as an unsigned integer, if it is a non-negative integer.
    pub open spec fn u64_value(self) -> Option<u64> {
        match self {
            Json::Number(JsonNumber::PosInt(u)) => Some(u),
            _ => None,
        }
    }

    /// The value as a signed integer, if it is an integer in `i64` range.
    pub open spec fn i64_value(self) -> Option<i64> {
        match self {
            Json::Number(JsonNumber::PosInt(u)) => if u <= i64::MAX { Some(u as i64) } else { None },
            Json::Number(JsonNumber::NegInt(i)) => Some(i),
            _ => None,
        }
    }

    /// The characters of the value, if it is a string.
    pub open spec fn text(self) -> Option<Seq<char>> {
        match self {
            Json::String(s) => Some(s@),
            _ => None,
        }
    }

    /// The elements of the value, if it is an array.
    pub open spec fn elements(self) -> Option<Seq<Json>> {
        match self {
            Json::Array(a) => Some(a@),
            _ => None,
        }
    }

    /// Looks up a member of an object (`None` for a missing member or a
    /// value that is not an object).
    pub fn get(&self, key: &str) -> (r: Option<&Json>)
        ensures
            deref_opt(r) == self.field(key@),
    {
        match self {
            Json::Object(entries) => {
                let mut i: usize = 0;
                assert(entries@.skip(0) =~= entries@);
                while i < entries.len()
                    invariant
                        i <= entries@.len(),
                        self.field(key@) == member(entries@, key@),
                        member(entries@, key@) == member(entries@.skip(i as int), key@),
                    decreases entries.len() - i,
                {
                    assert(entries@.skip(i as int).drop_first() =~= entries@.skip(i + 1));
                    assert(entries@.skip(i as int)[0] == entries@[i as int]);
                    let entry = &entries[i];
                    if same_text(entry.0.as_str(), key) {
                        return Some(&entry.1);
                    }
                    i = i + 1;
                }
                assert(entries@.skip(i as int).len() == 0);
                None
            },
            _ => None,
        }
    }

    /// Takes member `key` out of an object, consuming the value (`None` for
    /// a missing member or a value that is not an object).
    pub fn into_member(self, key: &str) -> (r: Option<Json>)
        ensures
            r == self.field(key@),
    {
        let ghost whole = self;
        match self {
            Json::Object(mut entries) => {
                let ghost e0 = entries@;
                let mut i: usize = 0;
                assert(entries@.skip(0) =~= entries@);
                while i < entries.len()
                    invariant
                        i <= entries@.len(),
                        entries@ == e0,
                        whole == self,
                        whole.field(key@) == member(e0, key@),
                        member(e0, key@) == member(e0.skip(i as int), key@),
                    decreases entries.len() - i,
                {
                    assert(e0.skip(i as int).drop_first() =~= e0.skip(i + 1));
                    assert(e0.skip(i as int)[0] == e0[i as int]);
                    if same_text(entries[i].0.as_str(), key) {
                        let (_, v) = entries.remove(i);
                        return Some(v);
                    }
                    i = i + 1;
                }
                None
            },
            _ => None,
        }
    }

    /// The value as a `u64`, if it is a non-negative integer.
    pub fn as_u64(&self) -> (r: Option<u64>)
        ensures
            r == self.u64_value(),
    {
        match self {
            Json::Number(JsonNumber::PosInt(u)) => Some(*u),
            _ => None,
        }
    }

    /// The value as an `i64`, if it is an integer that fits.
    pub fn as_i64(&self) -> (r: Option<i64>)
        ensures
            r == self.i64_value(),
    {
        match self {
            Json::Number(JsonNumber::PosInt(u)) => {
                if *u <= 9223372036854775807u64 {
                    Some(*u as i64)
                } else {
                    None
                }
            },
            Json::Number(JsonNumber::NegInt(i)) => Some(*i),
            _ => None,
        }
    }

    /// The value as a text slice, if it is a string.
    pub fn as_str(&self) -> (r: Option<&str>)
        ensures
            r matches Some(t) ==> self.text() == Some(t@),
            r is None ==> self.text() is None,
    {
        match self {
            Json::String(s) => Some(s.as_str()),
            _ => None,
        }
    }

    /// The elements of the value, if it is an array.
    pub fn as_array(&self) -> (r: Option<&Vec<Json>>)
        ensures
            r matches Some(a) ==> self.elements() == Some(a@),
            r is None ==> self.elements() is None,
    {
        match self {
            Json::Array(a) => Some(a),
            _ => None,
        }
    }

    /// Whether the value is an object.
    pub fn is_object(&self) -> (r: bool)
        ensures
            r == (self is Object),
    {
        match self {
            Json::Object(_) => true,
            _ => false,
        }
    }
}

/// The text of member `key`, or the empty text when it is missing or not a
/// string.
pub open spec fn text_or_empty(v: Json, key: Seq<char>) -> Seq<char> {
    match v.field(key) {
        Some(m) => match m.text() {
            Some(t) => t,
            None => Seq::empty(),
        },
        None => Seq::empty(),
    }
}

/// The string value of `key` (empty when missing or not a string).
pub fn json_str(value: &Json, key: &str) -> (r: String)
    ensures
        r@ == text_or_empty(*value, key@),
{
    match value.get(key) {
        Some(m) => match m.as_str() {
            Some(t) => String::from_str(t),
            None => String::new(),
        },
        None => String::new(),
    }
}

/// Member `key` as an unsigned integer, when present and one.
pub open spec fn field_u64(v: Json, key: Seq<char>) -> Option<u64> {
    match v.field(key) {
        Some(m) => m.u64_value(),
        None => None,
    }
}

/// Member `key` as a signed integer, when present and one in range.
pub open spec fn field_i64(v: Json, key: Seq<char>) -> Option<i64> {
    match v.field(key) {
        Some(m) => m.i64_value(),
        None => None,
    }
}

/// Member `key` as text, when present and a string.
pub open spec fn field_text(v: Json, key: Seq<char>) -> Option<Seq<char>> {
    match v.field(key) {
        Some(m) => m.text(),
        None => None,
    }
}

/// Member `key` as an unsigned integer.
pub fn get_u64(v: &Json, key: &str) -> (r: Option<u64>)
    ensures
        r == field_u64(*v, key@),
{
    match v.get(key) {
        Some(m) => m.as_u64(),
        None => None,
    }
}

/// Member `key` as a signed integer.
pub fn get_i64(v: &Json, key: &str) -> (r: Option<i64>)
    ensures
        r == field_i64(*v, key@),
{
    match v.get(key) {
        Some(m) => m.as_i64(),
        None => None,
    }
}

/// Member `key` as a text slice.
pub fn get_str<'a>(v: &'a Json, key: &str) -> (r: Option<&'a str>)
    ensures
        r matches Some(t) ==> field_text(*v, key@) == Some(t@),
        r is None ==> field_text(*v, key@) is None,
{
    match v.get(key) {
        Some(m) => m.as_str(),
        None => None,
    }
}

/// The lower-case hexadecimal digit of `d` (0 to 15).
pub open spec fn hex_digit(d: int) -> char {
    if d < 10 {
        (48 + d) as char
    } else {
        (87 + d) as char
    }
}

/// How `serde_json` writes one character inside a JSON string: the quote
/// and the backslash behind a backslash; backspace, tab, line feed, form
/// feed and carriage return as `\b`, `\t`, `\n`, `\f`, `\r`; the other
/// characters below U+0020 as `\u00` and two lower-case hex digits; every
/// other character as itself.
pub open spec fn json_char(c: char) -> Seq<char> {
    let u = c as u32;
    if c == '"' {
        seq!['\\', '"']
    } else if c == '\\' {
        seq!['\\', '\\']
    } else if u == 8 {
        seq!['\\', 'b']
    } else if u == 9 {
        seq!['\\', 't']
    } else if u == 10 {
        seq!['\\', 'n']
    } else if u == 12 {
        seq!['\\', 'f']
    } else if u == 13 {
        seq!['\\', 'r']
    } else if u < 32 {
        seq!['\\', 'u', '0', '0', hex_digit((u / 16) as int), hex_digit((u % 16) as int)]
    } else {
        seq![c]
    }
}

/// The characters of a text as `serde_json` writes them inside a string.
pub open spec fn json_escaped(s: Seq<char>) -> Seq<char>
    decreases s.len(),
{
    if s.len() == 0 {
        Seq::empty()
    } else {
        json_escaped(s.drop_last()) + json_char(s.last())
    }
}

/// The JSON string literal that `serde_json` writes for a text: the
/// escaped text between double quotes.
pub open spec fn json_quoted(s: Seq<char>) -> Seq<char> {
    seq!['"'] + json_escaped(s) + seq!['"']
}

/// Writes `s` as a JSON string with `serde_json::to_string`, which writes
/// the text between double quotes with the escapes of [`json_char`] (its
/// compact formatter's escape table). Serialising a string cannot fail (it
/// writes into a growable buffer), so the error arm is never taken.
#[verifier::external_body]
pub(crate) fn quote_json(s: &str) -> (r: String)
    ensures
        r@ == json_quoted(s@),
{
    match serde_json::to_string(s) {
        Ok(q) => q,
        Err(_) => String::new(),
    }
}

/// The document that `serde_json` parses from a text, as this library's
/// model (`None` when the text is not JSON).
pub uninterp spec fn parsed_json(text: Seq<char>) -> Option<Json>;

/// `serde_json::Value`, the document that `serde_json::from_str` gives.
#[verifier::external_type_specification]
#[verifier::external_body]
pub struct ExJsonValue(serde_json::Value);

/// Parses `text` with `serde_json::from_str` into a `serde_json::Value`
/// and takes it over into [`Json`]. What the parse gives is the name
/// [`parsed_json`] of the text; nothing more of it is stated.
#[verifier::external_body]
pub(crate) fn parse_json(text: &str) -> (r: Option<Json>)
    ensures
        r == parsed_json(text@),
{
    match serde_json::from_str::<serde_json::Value>(text) {
        Ok(v) => Some(json_of_value(v)),
        Err(_) => None,
    }
}

/// Takes a `serde_json::Value` over into [`Json`], variant by variant:
/// integers that fit `u64` or `i64` as such, any other number as the text
/// `serde_json` writes for it, and arrays and objects member by member (in
/// the order the value gives them). It is the conversion step of
/// [`parse_json`], in a function of its own because it recurses.
#[verifier::external_body]
fn json_of_value(v: serde_json::Value) -> Json {
    match v {
        serde_json::Value::Null => Json::Null,
        serde_json::Value::Bool(b) => Json::Bool(b),
        serde_json::Value::Number(n) => Json::Number(match (n.as_u64(), n.as_i64()) {
            (Some(u), _) => JsonNumber::PosInt(u),
            (None, Some(i)) => JsonNumber::NegInt(i),
            (None, None) => JsonNumber::Float(n.to_string()),
        }),
        serde_json::Value::String(t) => Json::String(t),
        serde_json::Value::Array(a) => Json::Array(a.into_iter().map(json_of_value).collect()),
        serde_json::Value::Object(m) => Json::Object(m.into_iter().map(|(k, x)| (k, json_of_value(x))).collect()),
    }
}

} // verus!
