use vstd::prelude::*;

verus! {

/// The 128-bit value that a piece of text denotes as a unique identifier,
/// or `None` where the text is not well-formed identifier syntax.
pub uninterp spec fn uuid_from_text(s: Seq<char>) -> Option<u128>;

/// Relies on `uuid::Uuid::parse_str`: parses hexadecimal-digit identifier
/// text (simple, hyphenated, URN or GUID form) into a 128-bit value, a pure
/// function of the input text alone; `Uuid::as_u128` converts the parsed
/// value to its integer form, and a parse failure is rendered as its
/// message.
#[verifier::external_body]
pub(crate) fn parse_subject(s: &String) -> (r: Result<u128, String>)
    ensures
        r is Ok <==> uuid_from_text(s@) is Some,
        r is Ok ==> r->Ok_0 == uuid_from_text(s@)->0,
{
    match uuid::Uuid::parse_str(s) {
        Ok(id) => Ok(id.as_u128()),
        Err(e) => Err(e.to_string()),
    }
}

} // verus!
