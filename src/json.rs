//! The untyped JSON layer: one node of a document at a time, with the
//! children of arrays and objects kept as their own JSON text.
use vstd::prelude::*;
use serde_json::Value;

verus! {

/// One JSON value, seen one level deep. The elements of an array and the
/// members of an object are held as JSON text, to be read in turn.
pub enum JsonNode {
    Null,
    Bool(bool),
    /// A number that is an integer in the range of `i64`.
    Int(i64),
    /// Any other number: a fraction, an exponent, or an integer out of range.
    OtherNumber,
    Str(String),
    Array(Vec<String>),
    Object(Vec<(String, String)>),
}

/// What `serde_json` reads from a text, seen one level deep; `None` where
/// the text is not a JSON document.
pub uninterp spec fn json_node_of(text: Seq<char>) -> Option<JsonNode>;

/// A lowercase hexadecimal digit.
pub open spec fn hex_digit(d: nat) -> char {
    if d < 10 {
        crate::api::digit_char(d)
    } else if d == 10 {
        'a'
    } else if d == 11 {
        'b'
    } else if d == 12 {
        'c'
    } else if d == 13 {
        'd'
    } else if d == 14 {
        'e'
    } else {
        'f'
    }
}

/// How a JSON string literal writes one character: quote and backslash
/// escaped, the short escapes for backspace, tab, line feed, form feed and
/// carriage return, `\u00xx` for any other control character below U+0020,
/// and every other character as it is.
pub open spec fn escaped_char(c: char) -> Seq<char> {
    if c == '"' {
        seq!['\\', '"']
    } else if c == '\\' {
        seq!['\\', '\\']
    } else if c == '\u{8}' {
        seq!['\\', 'b']
    } else if c == '\t' {
        seq!['\\', 't']
    } else if c == '\n' {
        seq!['\\', 'n']
    } else if c == '\u{c}' {
        seq!['\\', 'f']
    } else if c == '\r' {
        seq!['\\', 'r']
    } else if (c as u32) < 0x20 {
        seq!['\\', 'u', '0', '0', hex_digit((c as u32 / 16) as nat), hex_digit((c as u32 % 16) as nat)]
    } else {
        seq![c]
    }
}

/// The characters of `s`, each escaped.
pub open spec fn escaped(s: Seq<char>) -> Seq<char>
    decreases s.len(),
{
    if s.len() == 0 {
        Seq::empty()
    } else {
        escaped(s.drop_last()) + escaped_char(s.last())
    }
}

/// The JSON string literal of `s`, as `serde_json` writes it.
pub open spec fn json_quoted(s: Seq<char>) -> Seq<char> {
    seq!['"'] + escaped(s) + seq!['"']
}

/// Relies on `serde_json::from_str::<serde_json::Value>` to read a document,
/// on `Value::as_i64` to tell integers from other numbers, and on `Value`'s
/// `Display` to write each child back as JSON text.
#[verifier::external_body]
pub fn read_json(text: &str) -> (r: Option<JsonNode>)
    ensures
        r == json_node_of(text@),
{
    match serde_json::from_str::<Value>(text) {
        Err(_) => None,
        Ok(Value::Null) => Some(JsonNode::Null),
        Ok(Value::Bool(b)) => Some(JsonNode::Bool(b)),
        Ok(Value::Number(n)) => Some(n.as_i64().map_or(JsonNode::OtherNumber, JsonNode::Int)),
        Ok(Value::String(s)) => Some(JsonNode::Str(s)),
        Ok(Value::Array(a)) => Some(JsonNode::Array(a.iter().map(|x| x.to_string()).collect())),
        Ok(Value::Object(m)) => Some(JsonNode::Object(m.into_iter().map(|(k, x)| (k, x.to_string())).collect())),
    }
}

/// Relies on `serde_json::to_string` on a `str`, which writes the quoted
/// literal with the escapes of its `ESCAPE` table and has no error case for
/// a string.
#[verifier::external_body]
pub fn quote_json(s: &str) -> (r: String)
    ensures
        r@ == json_quoted(s@),
{
    match serde_json::to_string(s) {
        Ok(t) => t,
        Err(_) => String::new(),
    }
}

/// The text of the first member of `m` whose key is `key`.
pub open spec fn member(m: Seq<(String, String)>, key: Seq<char>) -> Option<Seq<char>>
    decreases m.len(),
{
    if m.len() == 0 {
        None
    } else if m[0].0@ == key {
        Some(m[0].1@)
    } else {
        member(m.drop_first(), key)
    }
}

/// The members of the object that `t` holds, if it holds one.
pub open spec fn members_of(t: Seq<char>) -> Option<Seq<(String, String)>> {
    match json_node_of(t) {
        Some(JsonNode::Object(m)) => Some(m@),
        _ => None,
    }
}

pub open spec fn int_of(t: Seq<char>) -> Option<i64> {
    match json_node_of(t) {
        Some(JsonNode::Int(v)) => Some(v),
        _ => None,
    }
}

pub open spec fn str_of(t: Seq<char>) -> Option<Seq<char>> {
    match json_node_of(t) {
        Some(JsonNode::Str(s)) => Some(s@),
        _ => None,
    }
}

pub open spec fn null_at(t: Seq<char>) -> bool {
    json_node_of(t) == Some(JsonNode::Null)
}

/// A required 64-bit integer member.
pub open spec fn i64_member(m: Seq<(String, String)>, key: Seq<char>) -> Option<i64> {
    match member(m, key) {
        Some(t) => int_of(t),
        None => None,
    }
}

pub open spec fn fits_i32(v: i64) -> bool {
    i32::MIN <= v <= i32::MAX
}

/// A required 32-bit integer member.
pub open spec fn i32_member(m: Seq<(String, String)>, key: Seq<char>) -> Option<i32> {
    match i64_member(m, key) {
        Some(v) => if fits_i32(v) { Some(v as i32) } else { None },
        None => None,
    }
}

/// A required string member.
pub open spec fn str_member(m: Seq<(String, String)>, key: Seq<char>) -> Option<Seq<char>> {
    match member(m, key) {
        Some(t) => str_of(t),
        None => None,
    }
}

/// An optional 32-bit integer member: `Some(None)` where it is absent or
/// null, `None` where it holds anything else than such an integer.
pub open spec fn opt_i32_member(m: Seq<(String, String)>, key: Seq<char>) -> Option<Option<i32>> {
    match member(m, key) {
        None => Some(None),
        Some(t) => if null_at(t) {
            Some(None)
        } else {
            match int_of(t) {
                Some(v) => if fits_i32(v) { Some(Some(v as i32)) } else { None },
                None => None,
            }
        },
    }
}

/// An optional string member, read as `opt_i32_member` reads integers.
pub open spec fn opt_str_member(m: Seq<(String, String)>, key: Seq<char>) -> Option<Option<Seq<char>>> {
    match member(m, key) {
        None => Some(None),
        Some(t) => if null_at(t) {
            Some(None)
        } else {
            match str_of(t) {
                Some(s) => Some(Some(s)),
                None => None,
            }
        },
    }
}

pub open spec fn opt_view(o: Option<String>) -> Option<Seq<char>> {
    match o {
        Some(s) => Some(s@),
        None => None,
    }
}

/// Whether `s` holds exactly the text `lit`.
pub fn text_is(s: &String, lit: &str) -> (r: bool)
    ensures
        r == (s@ == lit@),
{
    *s == lit.to_owned()
}

/// The index of the first member of `m` whose key is `key`.
pub fn find_member(m: &Vec<(String, String)>, key: &str) -> (r: Option<usize>)
    ensures
        match r {
            Some(i) => i < m@.len() && member(m@, key@) == Some(m@[i as int].1@),
            None => member(m@, key@) is None,
        },
{
    let n = m.len();
    let mut i: usize = n;
    let mut found: Option<usize> = None;
    while i > 0
        invariant
            i <= n == m@.len(),
            match found {
                Some(j) => j < n && member(m@.subrange(i as int, n as int), key@) == Some(
                    m@[j as int].1@,
                ),
                None => member(m@.subrange(i as int, n as int), key@) is None,
            },
        decreases i,
    {
        i = i - 1;
        assert(m@.subrange(i as int, n as int).drop_first() =~= m@.subrange(i + 1, n as int));
        if text_is(&m[i].0, key) {
            found = Some(i);
        }
    }
    assert(m@.subrange(0, n as int) =~= m@);
    found
}

/// Reads the object that `t` holds.
pub fn read_members(t: &str) -> (r: Option<Vec<(String, String)>>)
    ensures
        match r {
            Some(m) => members_of(t@) == Some(m@),
            None => members_of(t@) is None,
        },
{
    match read_json(t) {
        Some(JsonNode::Object(m)) => Some(m),
        _ => None,
    }
}

pub fn read_i64_member(m: &Vec<(String, String)>, key: &str) -> (r: Option<i64>)
    ensures
        r == i64_member(m@, key@),
{
    match find_member(m, key) {
        None => None,
        Some(i) => match read_json(m[i].1.as_str()) {
            Some(JsonNode::Int(v)) => Some(v),
            _ => None,
        },
    }
}

pub fn read_i32_member(m: &Vec<(String, String)>, key: &str) -> (r: Option<i32>)
    ensures
        r == i32_member(m@, key@),
{
    match read_i64_member(m, key) {
        Some(v) => if i32::MIN as i64 <= v && v <= i32::MAX as i64 {
            Some(v as i32)
        } else {
            None
        },
        None => None,
    }
}

pub fn read_str_member(m: &Vec<(String, String)>, key: &str) -> (r: Option<String>)
    ensures
        opt_view(r) == str_member(m@, key@),
{
    match find_member(m, key) {
        None => None,
        Some(i) => match read_json(m[i].1.as_str()) {
            Some(JsonNode::Str(s)) => Some(s),
            _ => None,
        },
    }
}

pub fn read_opt_i32_member(m: &Vec<(String, String)>, key: &str) -> (r: Option<Option<i32>>)
    ensures
        r == opt_i32_member(m@, key@),
{
    match find_member(m, key) {
        None => Some(None),
        Some(i) => match read_json(m[i].1.as_str()) {
            Some(JsonNode::Null) => Some(None),
            Some(JsonNode::Int(v)) => if i32::MIN as i64 <= v && v <= i32::MAX as i64 {
                Some(Some(v as i32))
            } else {
                None
            },
            _ => None,
        },
    }
}

pub fn read_opt_str_member(m: &Vec<(String, String)>, key: &str) -> (r: Option<Option<String>>)
    ensures
        match r {
            Some(o) => opt_str_member(m@, key@) == Some(opt_view(o)),
            None => opt_str_member(m@, key@) is None,
        },
{
    match find_member(m, key) {
        None => Some(None),
        Some(i) => match read_json(m[i].1.as_str()) {
            Some(JsonNode::Null) => Some(None),
            Some(JsonNode::Str(s)) => Some(Some(s)),
            _ => None,
        },
    }
}

} // verus!
