//! Names that the IR accepts for symbols and attributes.

use vstd::prelude::*;

verus! {

/// Error that pliron returns for a name it does not accept.
#[verifier::external_type_specification]
#[verifier::external_body]
pub struct ExPlironError(pliron::result::Error);

/// Whether `c` may begin an identifier.
pub open spec fn begins_identifier(c: char) -> bool {
    ('a' <= c && c <= 'z') || ('A' <= c && c <= 'Z') || c == '_'
}

/// Whether `c` may stand in an identifier after its first character.
pub open spec fn continues_identifier(c: char) -> bool {
    begins_identifier(c) || ('0' <= c && c <= '9')
}

/// Whether `name` matches `[a-zA-Z_][a-zA-Z0-9_]*`.
pub open spec fn is_identifier(name: Seq<char>) -> bool {
    &&& name.len() > 0
    &&& begins_identifier(name[0])
    &&& forall|i: int| 0 < i < name.len() ==> continues_identifier(#[trigger] name[i])
}

/// Calls `pliron::identifier::Identifier::try_new`: it accepts exactly the
/// names that match `[a-zA-Z_][a-zA-Z0-9_]*`, and keeps the text.
#[verifier::external_body]
fn identifier_try_new(value: String) -> (r: Result<String, pliron::result::Error>)
    ensures
        r is Ok <==> is_identifier(value@),
        r is Ok ==> r->Ok_0@ == value@,
{
    pliron::identifier::Identifier::try_new(value).map(String::from)
}

/// `name` as an identifier, or `None` where it is not one.
pub fn to_identifier(name: &str) -> (id: Option<String>)
    ensures
        match id {
            Some(text) => is_identifier(name@) && text@ == name@,
            None => !is_identifier(name@),
        },
{
    match identifier_try_new(String::from_str(name)) {
        Ok(text) => Some(text),
        Err(_) => None,
    }
}

/// `name`, which is one, as an identifier.
pub fn identifier(name: &str) -> (id: String)
    requires
        is_identifier(name@),
    ensures
        id@ == name@,
{
    match to_identifier(name) {
        Some(text) => text,
        None => String::new(),
    }
}

} // verus!
