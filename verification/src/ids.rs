use vstd::prelude::*;

verus! {

/// Whether a character is a hexadecimal digit without capitals, or a dash.
pub open spec fn id_char(c: char) -> bool {
    ('0' <= c && c <= '9') || ('a' <= c && c <= 'f') || c == '-'
}

/// Whether a text has the form of a random identifier: 36 characters, with dashes in four places.
pub open spec fn is_random_id(s: Seq<char>) -> bool {
    &&& s.len() == 36
    &&& forall|i: int| 0 <= i < 36 ==> id_char(#[trigger] s[i])
    &&& forall|i: int| 0 <= i < 36 ==> (#[trigger] s[i] == '-' <==> i == 8 || i == 13 || i == 18 || i == 23)
}

/// Calls `uuid::Uuid::new_v4` and `Display` of what it gives: 36 characters, each of them a
/// hexadecimal digit or a dash, with dashes in four places. Which digits they are is left to
/// chance; where the system has no random numbers to give, the call does not return.
#[verifier::external_body]
pub(crate) fn outside_uuid() -> (r: String)
    ensures
        is_random_id(r@),
{
    uuid::Uuid::new_v4().to_string()
}

} // verus!
