use vstd::prelude::*;

verus! {

/// A lower-case hexadecimal digit.
pub open spec fn is_lower_hex(c: char) -> bool {
    ('0' <= c && c <= '9') || ('a' <= c && c <= 'f')
}

/// `s` is the hyphenated lower-case text of a version-4 UUID: 36 characters,
/// hyphens at 8, 13, 18 and 23, hex digits elsewhere, the version digit `4`
/// and an RFC 4122 variant digit.
pub open spec fn is_uuid_v4_text(s: Seq<char>) -> bool {
    &&& s.len() == 36
    &&& forall|i: int|
        0 <= i < 36 ==> if i == 8 || i == 13 || i == 18 || i == 23 {
            s[i] == '-'
        } else {
            is_lower_hex(#[trigger] s[i])
        }
    &&& s[14] == '4'
    &&& (s[19] == '8' || s[19] == '9' || s[19] == 'a' || s[19] == 'b')
}

/// Relies on `uuid::Uuid::new_v4` and its `Display`: a random version-4 UUID,
/// written hyphenated in lower case. Which one comes out is chance.
#[verifier::external_body]
fn new_v4_text() -> (r: String)
    ensures
        is_uuid_v4_text(r@),
{
    uuid::Uuid::new_v4().to_string()
}

/// The identity a record is stored under: the one it carries, or a freshly
/// generated version-4 UUID where it carries none.
pub fn identity_or_fresh(given: Option<String>) -> (r: String)
    ensures
        match given {
            Some(id) => r@ == id@,
            None => is_uuid_v4_text(r@),
        },
{
    match given {
        Some(id) => id,
        None => new_v4_text(),
    }
}

} // verus!
