//! JSON as this library writes and reads it: string literals, objects whose
//! members are strings or null, and the lookup of one string in a document.
//! The writing and the reading are `serde_json`'s.

use vstd::prelude::*;

use crate::text::digit;

verus! {

/// `serde_json::Value`: a JSON value, carried through unopened.
#[verifier::external_type_specification]
#[verifier::external_body]
pub struct ExValue(serde_json::Value);

/// `serde_json::Map`: the members of a JSON object, carried through unopened.
#[verifier::external_type_specification]
#[verifier::external_body]
#[verifier::reject_recursive_types(K)]
#[verifier::reject_recursive_types(V)]
pub struct ExMap<K, V>(serde_json::Map<K, V>);

/// The lower-case hexadecimal digit for `n`.
pub open spec fn hex_digit(n: int) -> char {
    if n < 10 {
        digit(n)
    } else if n == 10 {
        'a'
    } else if n == 11 {
        'b'
    } else if n == 12 {
        'c'
    } else if n == 13 {
        'd'
    } else if n == 14 {
        'e'
    } else {
        'f'
    }
}

/// How one character stands inside a JSON string literal: the quote, the
/// backslash and the control characters below U+0020 are escaped, every other
/// character stands for itself.
pub open spec fn escaped_char(c: char) -> Seq<char> {
    if c == '"' {
        seq!['\\', '"']
    } else if c == '\\' {
        seq!['\\', '\\']
    } else if c == '\u{8}' {
        seq!['\\', 'b']
    } else if c == '\u{c}' {
        seq!['\\', 'f']
    } else if c == '\n' {
        seq!['\\', 'n']
    } else if c == '\r' {
        seq!['\\', 'r']
    } else if c == '\t' {
        seq!['\\', 't']
    } else if (c as u32) < 0x20 {
        seq![
            '\\',
            'u',
            '0',
            '0',
            hex_digit((c as u32) as int / 16),
            hex_digit((c as u32) as int % 16),
        ]
    } else {
        seq![c]
    }
}

/// The characters of `s`, each escaped, in order.
pub open spec fn escaped(s: Seq<char>) -> Seq<char>
    decreases s.len(),
{
    if s.len() == 0 {
        Seq::empty()
    } else {
        escaped(s.drop_last()) + escaped_char(s.last())
    }
}

/// The JSON string literal for `s`: its escaped characters between two quotes.
pub open spec fn string_literal(s: Seq<char>) -> Seq<char> {
    seq!['"'] + escaped(s) + seq!['"']
}

/// The members of a JSON object whose values are strings or null: each name
/// with its text, or with `None` for null.
pub type Members = Map<Seq<char>, Option<Seq<char>>>;

/// What a JSON object under construction holds.
pub uninterp spec fn object_members(object: serde_json::Map<String, serde_json::Value>) -> Members;

/// The compact JSON text of the object with the given members.
pub uninterp spec fn object_text(members: Members) -> Seq<char>;

/// The string under `name` in the JSON document `document`; `None` where the
/// document is not JSON, or has no string there.
pub uninterp spec fn string_member(document: Seq<u8>, name: Seq<char>) -> Option<Seq<char>>;

/// `serde_json::Value::to_string` on a `Value::String`: the compact serializer
/// writes a quote, the text with `"`, `\` and the bytes below 0x20 escaped
/// (`\b`, `\t`, `\n`, `\f`, `\r`, else `\u00` and two lower-case hex digits),
/// and a closing quote. Nothing here proves that it does.
#[verifier::external_body]
pub(crate) fn encode_string(s: &str) -> (text: String)
    ensures
        text@ == string_literal(s@),
{
    serde_json::Value::String(s.to_owned()).to_string()
}

/// `serde_json::Map::new`: an object without members.
#[verifier::external_body]
pub(crate) fn new_object() -> (object: serde_json::Map<String, serde_json::Value>)
    ensures
        object_members(object) == Members::empty(),
{
    serde_json::Map::new()
}

/// `serde_json::Map::insert`: the member `name` is added, or replaced where
/// the object already had one of that name; the other members stay.
#[verifier::external_body]
pub(crate) fn insert_member(
    object: &mut serde_json::Map<String, serde_json::Value>,
    name: &str,
    value: Option<&str>,
)
    ensures
        object_members(*final(object)) == object_members(*old(object)).insert(
            name@,
            match value {
                Some(text) => Some(text@),
                None => None,
            },
        ),
{
    let value = match value {
        Some(text) => serde_json::Value::String(text.to_owned()),
        None => serde_json::Value::Null,
    };
    object.insert(name.to_owned(), value);
}

/// `serde_json::Value::to_string` on a `Value::Object`: `serde_json` keeps the
/// members of an object sorted by name, so the text depends on the members
/// alone, not on the order in which they were inserted. Nothing more is
/// stated of the text.
#[verifier::external_body]
pub(crate) fn write_object(object: serde_json::Map<String, serde_json::Value>) -> (text: String)
    ensures
        text@ == object_text(object_members(object)),
{
    serde_json::Value::Object(object).to_string()
}

/// `serde_json::from_slice` into a `Value`, then `Value::get` and
/// `Value::as_str`: the same document and name always give the same answer.
#[verifier::external_body]
pub(crate) fn read_string_member(document: &[u8], name: &str) -> (found: Option<String>)
    ensures
        found.deep_view() == string_member(document@, name@),
{
    let value: serde_json::Value = serde_json::from_slice(document).ok()?;
    Some(value.get(name)?.as_str()?.to_owned())
}

/// Whether `c` is no control character below U+0020.
pub open spec fn printable(c: char) -> bool {
    c as u32 >= 0x20
}

/// No escaped character holds a control character.
pub proof fn lemma_escaped_char_is_printable(c: char)
    ensures
        escaped_char(c).len() >= 1,
        forall|i: int| 0 <= i < escaped_char(c).len() ==> printable(#[trigger] escaped_char(c)[i]),
{
}

/// No escaped text holds a control character.
pub proof fn lemma_escaped_is_printable(s: Seq<char>)
    ensures
        forall|i: int| 0 <= i < escaped(s).len() ==> printable(#[trigger] escaped(s)[i]),
    decreases s.len(),
{
    if s.len() > 0 {
        let head = escaped(s.drop_last());
        let tail = escaped_char(s.last());
        lemma_escaped_is_printable(s.drop_last());
        lemma_escaped_char_is_printable(s.last());
        assert forall|i: int| 0 <= i < escaped(s).len() implies printable(
            #[trigger] escaped(s)[i],
        ) by {
            if i < head.len() {
                assert(escaped(s)[i] == head[i]);
            } else {
                assert(escaped(s)[i] == tail[i - head.len()]);
            }
        }
    }
}

/// A JSON string literal stands on one line: it begins and ends with a
/// quote, and holds no control character, so no line break either.
pub proof fn law_literal_is_one_line(s: Seq<char>)
    ensures
        string_literal(s).len() >= 2,
        string_literal(s).first() == '"',
        string_literal(s).last() == '"',
        forall|i: int|
            0 <= i < string_literal(s).len() ==> printable(#[trigger] string_literal(s)[i]),
        !string_literal(s).contains('\n'),
{
    lemma_escaped_is_printable(s);
    let inner = escaped(s);
    let literal = string_literal(s);
    assert forall|i: int| 0 <= i < literal.len() implies printable(#[trigger] literal[i]) by {
        if 0 < i && i <= inner.len() {
            assert(literal[i] == inner[i - 1]);
        }
    }
    assert(!printable('\n'));
}

} // verus!
