//! JSON: the objects the agent writes, and the members it reads.

use vstd::prelude::*;

use crate::text::{decimal, hex, sorts_before, text_view};

verus! {

#[verifier::external_type_specification]
#[verifier::external_body]
#[verifier::reject_recursive_types(K)]
#[verifier::reject_recursive_types(V)]
pub struct ExObject<K, V>(serde_json::Map<K, V>);

#[verifier::external_type_specification]
#[verifier::external_body]
pub struct ExValue(serde_json::Value);

#[verifier::external_type_specification]
#[verifier::external_body]
pub struct ExError(serde_json::Error);

// ---------------------------------------------------------------------------
// Writing
// ---------------------------------------------------------------------------

/// The values that stand in the objects the agent writes.
pub enum Scalar {
    Null,
    Number(u64),
    Text(Seq<char>),
}

/// Members in the order of their names, with the member `name` set to `value`.
pub open spec fn with_member(
    members: Seq<(Seq<char>, Scalar)>,
    name: Seq<char>,
    value: Scalar,
) -> Seq<(Seq<char>, Scalar)>
    decreases members.len(),
{
    if members.len() == 0 || sorts_before(name, members[0].0) {
        seq![(name, value)] + members
    } else if members[0].0 == name {
        seq![(name, value)] + members.skip(1)
    } else {
        seq![members[0]] + with_member(members.skip(1), name, value)
    }
}

/// A character inside a JSON string: quotes, backslashes and control characters
/// are escaped.
pub open spec fn escaped(c: char) -> Seq<char> {
    if c == '"' || c == '\\' {
        seq!['\\', c]
    } else if c == '\u{8}' {
        seq!['\\', 'b']
    } else if c == '\t' {
        seq!['\\', 't']
    } else if c == '\n' {
        seq!['\\', 'n']
    } else if c == '\u{c}' {
        seq!['\\', 'f']
    } else if c == '\r' {
        seq!['\\', 'r']
    } else if (c as u32) < 0x20 {
        seq!['\\', 'u'] + hex(c as nat, 4)
    } else {
        seq![c]
    }
}

/// `text` as a JSON string.
pub open spec fn quoted(text: Seq<char>) -> Seq<char> {
    seq!['"'] + text.map_values(|c: char| escaped(c)).flatten() + seq!['"']
}

/// A value in JSON.
pub open spec fn scalar_text(value: Scalar) -> Seq<char> {
    match value {
        Scalar::Null => seq!['n', 'u', 'l', 'l'],
        Scalar::Number(n) => decimal(n as nat),
        Scalar::Text(text) => quoted(text),
    }
}

/// `"name":value` for each of the members, with commas between them.
pub open spec fn joined_members(members: Seq<(Seq<char>, Scalar)>) -> Seq<char>
    decreases members.len(),
{
    if members.len() == 0 {
        seq![]
    } else {
        let (name, value) = members.last();
        let ahead = members.drop_last();
        joined_members(ahead) + (if ahead.len() > 0 {
            seq![',']
        } else {
            seq![]
        }) + quoted(name) + seq![':'] + scalar_text(value)
    }
}

/// The JSON object with these members, in this order.
pub open spec fn object_text(members: Seq<(Seq<char>, Scalar)>) -> Seq<char> {
    seq!['{'] + joined_members(members) + seq!['}']
}

/// The members of a `serde_json::Map`, in the order of their names.
pub uninterp spec fn object_members(object: serde_json::Map<String, serde_json::Value>) -> Seq<
    (Seq<char>, Scalar),
>;

/// Every member of a `serde_json::Map` is a string, a number without a sign, or null.
pub uninterp spec fn holds_scalars(object: serde_json::Map<String, serde_json::Value>) -> bool;

/// `serde_json::Map::new` makes an object without members.
pub assume_specification[ serde_json::Map::<String, serde_json::Value>::new ]() -> (object: serde_json::Map<String, serde_json::Value>)
    ensures
        object_members(object).len() == 0,
        holds_scalars(object),
;

/// `serde_json::Map::insert` with a string value: sets the member `name`, and
/// leaves the others as they are.
#[verifier::external_body]
fn insert_text(map: &mut serde_json::Map<String, serde_json::Value>, name: &str, value: &str)
    ensures
        object_members(*final(map)) == with_member(
            object_members(*old(map)),
            name@,
            Scalar::Text(value@),
        ),
        holds_scalars(*old(map)) ==> holds_scalars(*final(map)),
{
    map.insert(name.to_string(), serde_json::Value::from(value));
}

/// `serde_json::Map::insert` with a number value: sets the member `name`, and
/// leaves the others as they are.
#[verifier::external_body]
fn insert_number(map: &mut serde_json::Map<String, serde_json::Value>, name: &str, value: u64)
    ensures
        object_members(*final(map)) == with_member(
            object_members(*old(map)),
            name@,
            Scalar::Number(value),
        ),
        holds_scalars(*old(map)) ==> holds_scalars(*final(map)),
{
    map.insert(name.to_string(), serde_json::Value::from(value));
}

/// `serde_json::Map::insert` with a null value: sets the member `name`, and
/// leaves the others as they are.
#[verifier::external_body]
fn insert_null(map: &mut serde_json::Map<String, serde_json::Value>, name: &str)
    ensures
        object_members(*final(map)) == with_member(object_members(*old(map)), name@, Scalar::Null),
        holds_scalars(*old(map)) ==> holds_scalars(*final(map)),
{
    map.insert(name.to_string(), serde_json::Value::Null);
}

/// Printing a `serde_json::Value` that is an object of scalars: its members in the
/// order of their names, without spaces. In strings the two characters that would
/// end them or start an escape are escaped, and the control characters below the
/// space, those five by a letter that have one and the others by four hexadecimal
/// digits.
#[verifier::external_body]
fn print_map(map: serde_json::Map<String, serde_json::Value>) -> (text: String)
    requires
        holds_scalars(map),
    ensures
        text@ == object_text(object_members(map)),
{
    serde_json::Value::Object(map).to_string()
}

/// A JSON object whose members are scalars. Nothing else can be put into it.
pub struct JsonObject {
    map: serde_json::Map<String, serde_json::Value>,
}

impl JsonObject {
    #[verifier::type_invariant]
    spec fn holds_scalars_alone(self) -> bool {
        holds_scalars(self.map)
    }

    /// The members, in the order of their names.
    pub closed spec fn members(self) -> Seq<(Seq<char>, Scalar)> {
        object_members(self.map)
    }

    /// An object without members.
    pub fn new() -> (object: JsonObject)
        ensures
            object.members() == Seq::<(Seq<char>, Scalar)>::empty(),
    {
        let object = JsonObject { map: serde_json::Map::new() };
        assert(object.members() =~= Seq::<(Seq<char>, Scalar)>::empty());
        object
    }

    /// Set the member `name` to a string.
    pub fn put_text(self, name: &str, value: &str) -> (object: JsonObject)
        ensures
            object.members() == with_member(self.members(), name@, Scalar::Text(value@)),
    {
        proof {
            use_type_invariant(&self);
        }
        let mut map = self.map;
        insert_text(&mut map, name, value);
        JsonObject { map }
    }

    /// Set the member `name` to a number.
    pub fn put_number(self, name: &str, value: u64) -> (object: JsonObject)
        ensures
            object.members() == with_member(self.members(), name@, Scalar::Number(value)),
    {
        proof {
            use_type_invariant(&self);
        }
        let mut map = self.map;
        insert_number(&mut map, name, value);
        JsonObject { map }
    }

    /// Set the member `name` to null.
    pub fn put_null(self, name: &str) -> (object: JsonObject)
        ensures
            object.members() == with_member(self.members(), name@, Scalar::Null),
    {
        proof {
            use_type_invariant(&self);
        }
        let mut map = self.map;
        insert_null(&mut map, name);
        JsonObject { map }
    }

    /// The object in JSON.
    pub fn print(self) -> (text: String)
        ensures
            text@ == object_text(self.members()),
    {
        proof {
            use_type_invariant(&self);
        }
        print_map(self.map)
    }
}

// ---------------------------------------------------------------------------
// Reading
// ---------------------------------------------------------------------------

/// What a `serde_json::Error` prints.
pub uninterp spec fn error_words(error: serde_json::Error) -> Seq<char>;

/// `serde_json::Error` by its `Display`: what is wrong with the text, and where.
#[verifier::external_body]
pub(crate) fn print_error(error: serde_json::Error) -> (text: String)
    ensures
        text@ == error_words(error),
{
    error.to_string()
}

/// What the JSON `text` holds: the words of the error when it is not JSON, else the
/// string under `text_name` and the boolean under `flag_name`, each where there is
/// one.
pub uninterp spec fn json_members(
    text: Seq<char>,
    text_name: Seq<char>,
    flag_name: Seq<char>,
) -> Result<(Option<Seq<char>>, Option<bool>), Seq<char>>;

/// No character of `text` needs an escape inside a JSON string.
pub open spec fn is_plain(text: Seq<char>) -> bool {
    forall|i: int|
        0 <= i < text.len() ==> {
            let u = #[trigger] text[i] as u32;
            0x20 <= u < 0x7f && u != 0x22 && u != 0x5c
        }
}

/// `"name":"value"`
pub open spec fn text_member(name: Seq<char>, value: Seq<char>) -> Seq<char> {
    seq!['"'] + name + seq!['"', ':', '"'] + value + seq!['"']
}

/// `"name":true` or `"name":false`
pub open spec fn flag_member(name: Seq<char>, value: bool) -> Seq<char> {
    seq!['"'] + name + seq!['"', ':'] + if value {
        seq!['t', 'r', 'u', 'e']
    } else {
        seq!['f', 'a', 'l', 's', 'e']
    }
}

/// The JSON object with one string member, and a boolean member behind it where
/// there is one.
pub open spec fn members_text(
    text_name: Seq<char>,
    text: Seq<char>,
    flag_name: Seq<char>,
    flag: Option<bool>,
) -> Seq<char> {
    seq!['{'] + text_member(text_name, text) + (match flag {
        Some(flag) => seq![','] + flag_member(flag_name, flag),
        None => seq![],
    }) + seq!['}']
}

/// What was found in a text that holds one string member and at most one boolean
/// member, written plainly, is those members.
pub open spec fn reads_written_members(
    text: Seq<char>,
    text_name: Seq<char>,
    flag_name: Seq<char>,
    found: Result<(Option<Seq<char>>, Option<bool>), Seq<char>>,
) -> bool {
    is_plain(text_name) && is_plain(flag_name) && text_name != flag_name ==> forall|
        value: Seq<char>,
        flag: Option<bool>,
    |
        is_plain(value) && text == #[trigger] members_text(text_name, value, flag_name, flag)
            ==> found == Ok::<(Option<Seq<char>>, Option<bool>), Seq<char>>((Some(value), flag))
}

/// The members that were read, with the string as its characters, or the words of
/// the error.
pub open spec fn members_view(
    members: Result<(Option<String>, Option<bool>), serde_json::Error>,
) -> Result<(Option<Seq<char>>, Option<bool>), Seq<char>> {
    match members {
        Ok(found) => Ok((text_view(found.0), found.1)),
        Err(error) => Err(error_words(error)),
    }
}

/// `serde_json::from_str`, then `Value::get` with `as_str` and with `as_bool`.
///
/// What comes out, the words of the error too, is a function of the arguments. Of
/// an object that holds nothing but the two members, written without spaces and escapes, it is those
/// members.
#[verifier::external_body]
pub(crate) fn read_members(text: &str, text_name: &str, flag_name: &str) -> (members: Result<
    (Option<String>, Option<bool>),
    serde_json::Error,
>)
    ensures
        members_view(members) == json_members(text@, text_name@, flag_name@),
        reads_written_members(text@, text_name@, flag_name@, members_view(members)),
{
    let value: serde_json::Value = serde_json::from_str(text)?;
    let found = value.get(text_name).and_then(|member| member.as_str());
    let flag = value.get(flag_name).and_then(|member| member.as_bool());
    Ok((found.map(|member| member.to_string()), flag))
}

/// What the JSON `bytes` hold: the words of the error when they are not JSON, else
/// the numbers under `first` and `second`, each where there is one, by the bits of
/// their double-precision form.
pub uninterp spec fn json_numbers(
    bytes: Seq<u8>,
    first: Seq<char>,
    second: Seq<char>,
) -> Result<(Option<u64>, Option<u64>), Seq<char>>;

/// The numbers that were read, or the words of the error.
pub open spec fn numbers_view(
    numbers: Result<(Option<u64>, Option<u64>), serde_json::Error>,
) -> Result<(Option<u64>, Option<u64>), Seq<char>> {
    match numbers {
        Ok(found) => Ok(found),
        Err(error) => Err(error_words(error)),
    }
}

/// `serde_json::from_slice`, then `Value::get` and the double-precision reading
/// of the member. What comes out, the words of the error too, is a function of the
/// arguments.
#[verifier::external_body]
pub(crate) fn read_numbers(bytes: &[u8], first: &str, second: &str) -> (numbers: Result<
    (Option<u64>, Option<u64>),
    serde_json::Error,
>)
    ensures
        numbers_view(numbers) == json_numbers(bytes@, first@, second@),
{
    let value: serde_json::Value = serde_json::from_slice(bytes)?;
    let a = value.get(first).and_then(|member| member.as_f64());
    let b = value.get(second).and_then(|member| member.as_f64());
    Ok((a.map(|number| number.to_bits()), b.map(|number| number.to_bits())))
}

} // verus!
