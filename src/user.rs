use crate::error::FetchError;
use vstd::prelude::*;
use vstd::string::StringExecFns;
use vstd::utf8::encode_utf8;

verus! {

/// The text of the `name` member of the JSON object that `bytes` hold, as
/// serde_json reads them; none where `bytes` are not one JSON object or its
/// `name` member is missing or not a string.
pub uninterp spec fn json_name_member(bytes: Seq<u8>) -> Option<Seq<char>>;

/// The JSON string literal, quotes and escapes included, that serde_json
/// writes for `text`.
pub uninterp spec fn json_string_literal(text: Seq<char>) -> Seq<char>;

/// A character that a JSON string literal has to escape.
pub open spec fn needs_escape(c: char) -> bool {
    c == '"' || c == '\\' || (c as u32) < 0x20
}

/// The record `{"name":<literal>}`, with no space.
pub open spec fn json_record(literal: Seq<char>) -> Seq<char> {
    seq!['{', '"', 'n', 'a', 'm', 'e', '"', ':'] + literal + seq!['}']
}

/// Relies on `serde_json::from_slice` into a `serde_json::Value`: the bytes
/// parse as one JSON value, and the result is the `name` member where that
/// value is an object whose `name` is a string. Other members are ignored.
#[verifier::external_body]
fn read_name_member(bytes: &[u8]) -> (r: Option<String>)
    ensures
        r is None ==> json_name_member(bytes@) is None,
        r matches Some(s) ==> json_name_member(bytes@) == Some(s@),
{
    match serde_json::from_slice::<serde_json::Value>(bytes) {
        Ok(serde_json::Value::Object(mut members)) => match members.remove("name") {
            Some(serde_json::Value::String(name)) => Some(name),
            _ => None,
        },
        _ => None,
    }
}

/// Relies on serde_json's writer for a string (the `Display` of
/// `serde_json::Value::String`): it quotes `text` and escapes `"`, `\` and
/// the control characters below U+0020, and nothing else; serde_json reads
/// the literal back as `text` where it stands as the `name` of an object.
#[verifier::external_body]
fn write_string_literal(text: &str) -> (r: String)
    ensures
        r@ == json_string_literal(text@),
        json_name_member(encode_utf8(json_record(r@))) == Some(text@),
        (forall|i: int| 0 <= i < text@.len() ==> !needs_escape(#[trigger] text@[i]))
            ==> r@ == seq!['"'] + text@ + seq!['"'],
{
    serde_json::Value::String(text.to_string()).to_string()
}

/// A user of the remote directory, as its JSON record carries it.
#[derive(Debug, Clone)]
pub struct User {
    name: String,
}

impl View for User {
    type V = Seq<char>;

    /// A user is its name.
    closed spec fn view(&self) -> Seq<char> {
        self.name@
    }
}

impl User {
    /// A user with the given name.
    pub fn new(name: String) -> (r: User)
        ensures
            r@ == name@,
    {
        User { name }
    }

    /// The user's name.
    pub fn name(&self) -> (r: &str)
        ensures
            r@ == self@,
    {
        self.name.as_str()
    }

    /// Decodes a user from a JSON body. Members other than `name` are
    /// ignored; a body that is not JSON, not an object, or has no text
    /// `name` is a deserialization error.
    pub fn from_json(bytes: &[u8]) -> (r: Result<User, FetchError>)
        ensures
            json_name_member(bytes@) is None <==> r matches Err(FetchError::Deserialization),
            r is Ok <==> json_name_member(bytes@) is Some,
            r matches Ok(u) ==> json_name_member(bytes@) == Some(u@),
    {
        match read_name_member(bytes) {
            Some(name) => Ok(User { name }),
            None => Err(FetchError::Deserialization),
        }
    }

    /// Encodes the user as the JSON record `{"name":...}`, with the name
    /// quoted as serde_json writes it. Decoding the record gives the same
    /// name back.
    pub fn to_json(&self) -> (r: String)
        ensures
            r@ == json_record(json_string_literal(self@)),
            json_name_member(encode_utf8(r@)) == Some(self@),
            (forall|i: int| 0 <= i < self@.len() ==> !needs_escape(#[trigger] self@[i]))
                ==> r@ == json_record(seq!['"'] + self@ + seq!['"']),
    {
        let literal = write_string_literal(self.name.as_str());
        let mut out = String::from_str("{\"name\":");
        out.append(literal.as_str());
        out.append("}");
        proof {
            reveal_strlit("{\"name\":");
            reveal_strlit("}");
            assert(out@ =~= json_record(literal@));
        }
        out
    }
}

} // verus!
