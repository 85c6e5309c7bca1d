//! Fresh identifiers for new todos: random UUIDs in their canonical text.

use vstd::prelude::*;

verus! {

/// `c` is a decimal digit or one of the letters `a` to `f`.
pub open spec fn is_lower_hex(c: char) -> bool {
    ('0' <= c && c <= '9') || ('a' <= c && c <= 'f')
}

/// The four places of the canonical text that hold a hyphen.
pub open spec fn is_hyphen_place(i: int) -> bool {
    i == 8 || i == 13 || i == 18 || i == 23
}

/// `s` is the canonical text of a random (version 4) UUID: 36 characters,
/// lower-case hexadecimal digits in groups of 8, 4, 4, 4 and 12 with a
/// hyphen between groups, where the third group starts with `4` and the
/// fourth with one of `8`, `9`, `a`, `b`.
pub open spec fn is_random_uuid_text(s: Seq<char>) -> bool {
    &&& s.len() == 36
    &&& forall|i: int|
        0 <= i < 36 ==> if is_hyphen_place(i) {
            #[trigger] s[i] == '-'
        } else {
            is_lower_hex(s[i])
        }
    &&& s[14] == '4'
    &&& (s[19] == '8' || s[19] == '9' || s[19] == 'a' || s[19] == 'b')
}

/// Draws a random UUID with `uuid::Uuid::new_v4` and renders it with the
/// crate's `Display`.
///
/// Trusted, not proved: the text has the canonical hyphenated lower-case
/// shape, with the version and variant digits that `new_v4` sets. Nothing
/// is claimed about which UUID comes out; in particular two calls are not
/// claimed to differ. `new_v4` panics when the operating system cannot
/// supply random bytes.
#[verifier::external_body]
pub(crate) fn random_uuid_text() -> (id: String)
    ensures
        is_random_uuid_text(id@),
{
    uuid::Uuid::new_v4().to_string()
}

} // verus!
