//! What the library reads of a JSON body: the members of a top-level object.
use vstd::prelude::*;

verus! {

/// The value of one member of a JSON object, as far as the library reads it.
#[derive(Debug, Clone)]
pub enum JsonMember {
    Null,
    Text(String),
    /// A number, a boolean, an array or an object.
    Other,
}

/// The mathematical value of a [`JsonMember`].
pub enum MemberModel {
    Null,
    Text(Seq<char>),
    Other,
}

impl View for JsonMember {
    type V = MemberModel;

    open spec fn view(&self) -> MemberModel {
        match self {
            JsonMember::Null => MemberModel::Null,
            JsonMember::Text(s) => MemberModel::Text(s@),
            JsonMember::Other => MemberModel::Other,
        }
    }
}

/// The members of a JSON object, name and value, as the library sees them.
pub type Members = Seq<(Seq<char>, MemberModel)>;

/// The members that a vector of named [`JsonMember`]s stands for.
pub open spec fn members_view(v: Seq<(String, JsonMember)>) -> Members {
    v.map_values(|p: (String, JsonMember)| (p.0@, p.1@))
}

/// The members of the JSON object that `text` holds, or `None` where `text`
/// is not a JSON object.
pub uninterp spec fn json_object_members(text: Seq<char>) -> Option<Members>;

/// The lowercase hexadecimal digit of `d`, for `d` below 16.
pub open spec fn hex_digit(d: u32) -> char {
    if d < 10 {
        ('0' as u32 + d) as char
    } else {
        ('a' as u32 + (d - 10)) as char
    }
}

/// How one character stands inside a JSON string literal: `"` and `\`
/// behind a backslash, the controls that have a short form in it, every
/// other control below 0x20 as `\u00xx` in lowercase hexadecimal, and any
/// other character as itself.
pub open spec fn json_escape(c: char) -> Seq<char> {
    if c == '"' {
        seq!['\\', '"']
    } else if c == '\\' {
        seq!['\\', '\\']
    } else if c == '\x08' {
        seq!['\\', 'b']
    } else if c == '\t' {
        seq!['\\', 't']
    } else if c == '\n' {
        seq!['\\', 'n']
    } else if c == '\x0c' {
        seq!['\\', 'f']
    } else if c == '\r' {
        seq!['\\', 'r']
    } else if (c as u32) < 0x20 {
        seq!['\\', 'u', '0', '0', hex_digit((c as u32) / 16), hex_digit((c as u32) % 16)]
    } else {
        seq![c]
    }
}

/// The characters of `s`, each as it stands inside a JSON string literal.
pub open spec fn json_escaped(s: Seq<char>) -> Seq<char>
    decreases s.len(),
{
    if s.len() == 0 {
        Seq::<char>::empty()
    } else {
        json_escape(s[0]) + json_escaped(s.drop_first())
    }
}

/// The JSON string literal that stands for `s`: its escaped characters
/// between double quotes.
pub open spec fn json_string_literal(s: Seq<char>) -> Seq<char> {
    seq!['"'] + json_escaped(s) + seq!['"']
}

/// Relies on `serde_json::from_str` into a `serde_json::Map`: it parses
/// `text` as one JSON object, and fails, with serde_json's message, on
/// anything else. Each member's value is only told apart as null, a string,
/// or something else.
#[verifier::external_body]
pub(crate) fn parse_object(text: &str) -> (r: core::result::Result<Vec<(String, JsonMember)>, String>)
    ensures
        r is Ok <==> json_object_members(text@) is Some,
        r matches Ok(v) ==> members_view(v@) == json_object_members(text@)->0,
{
    serde_json::from_str::<serde_json::Map<String, serde_json::Value>>(text).map(
        |m|
            m.into_iter().map(
                |(k, v)|
                    match v {
                        serde_json::Value::Null => (k, JsonMember::Null),
                        serde_json::Value::String(s) => (k, JsonMember::Text(s)),
                        _ => (k, JsonMember::Other),
                    },
            ).collect(),
    ).map_err(|e| e.to_string())
}

/// Relies on `serde_json::to_string` of a `str`: the string encoded as a JSON
/// string literal with serde_json's escape table. It writes into a `Vec`,
/// whose writes do not fail, so it always succeeds.
#[verifier::external_body]
pub(crate) fn quote(s: &str) -> (r: core::result::Result<String, String>)
    ensures
        r is Ok,
        r matches Ok(q) ==> q@ == json_string_literal(s@),
{
    serde_json::to_string(s).map_err(|e| e.to_string())
}

/// The value of the first member named `key`, if any.
pub open spec fn member(obj: Members, key: Seq<char>) -> Option<MemberModel>
    decreases obj.len(),
{
    if obj.len() == 0 {
        None
    } else if obj[0].0 == key {
        Some(obj[0].1)
    } else {
        member(obj.drop_first(), key)
    }
}

/// Whether `a` and `b` hold the same characters.
pub fn same_text(a: &String, b: &str) -> (r: bool)
    ensures
        r == (a@ == b@),
{
    let b = String::from_str(b);
    *a == b
}

/// The value of the first member named `key`, if any.
pub fn find_member<'a>(obj: &'a Vec<(String, JsonMember)>, key: &str) -> (r: Option<&'a JsonMember>)
    ensures
        match r {
            Some(m) => member(members_view(obj@), key@) == Some(m@),
            None => member(members_view(obj@), key@) is None,
        },
{
    let mut i: usize = 0;
    assert(members_view(obj@).skip(0) =~= members_view(obj@));
    while i < obj.len()
        invariant
            i <= obj@.len(),
            member(members_view(obj@), key@) == member(members_view(obj@).skip(i as int), key@),
        decreases obj@.len() - i,
    {
        let ghost rest = members_view(obj@).skip(i as int);
        assert(rest[0] == (obj@[i as int].0@, obj@[i as int].1@));
        if same_text(&obj[i].0, key) {
            return Some(&obj[i].1);
        }
        assert(rest.drop_first() =~= members_view(obj@).skip(i + 1));
        i = i + 1;
    }
    assert(members_view(obj@).skip(i as int).len() == 0);
    None
}

} // verus!
