//! Identifiers of sessions, results and clients.

use vstd::prelude::*;

verus! {

/// Whether a character is a hexadecimal digit in lower case.
pub open spec fn hex_digit(c: char) -> bool {
    '0' <= c <= '9' || 'a' <= c <= 'f'
}

/// Whether a text is a random UUID: hexadecimal digits in groups of eight, four, four, four and
/// twelve, with the marks of version and variant.
pub open spec fn uuid_text(s: Seq<char>) -> bool {
    &&& s.len() == 36
    &&& forall|i: int|
        0 <= i < 36 ==> if i == 8 || i == 13 || i == 18 || i == 23 {
            #[trigger] s[i] == '-'
        } else {
            hex_digit(s[i])
        }
    &&& s[14] == '4'
    &&& s[19] == '8' || s[19] == '9' || s[19] == 'a' || s[19] == 'b'
}

/// `uuid::Uuid::new_v4` and its `to_string`: a random UUID in lower case with hyphens. It draws on
/// the random numbers of the operating system and aborts the thread where there are none to be
/// had. Nothing is said of which UUID comes, nor that two calls differ.
#[verifier::external_body]
pub(crate) fn fresh_id() -> (r: String)
    ensures
        uuid_text(r@),
{
    uuid::Uuid::new_v4().to_string()
}

/// An identifier for a client that begins to run.
pub fn new_client_id() -> (r: String)
    ensures
        uuid_text(r@),
{
    fresh_id()
}

} // verus!
