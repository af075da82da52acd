use vstd::prelude::*;

use uuid::Uuid;

verus! {

/// A lower-case hexadecimal digit.
pub open spec fn is_lower_hex_digit(c: char) -> bool {
    ('0' <= c && c <= '9') || ('a' <= c && c <= 'f')
}

/// The hyphenated lower-case text of a random (version 4, RFC 4122 variant)
/// UUID: 32 hexadecimal digits in groups of 8, 4, 4, 4 and 12, the version
/// digit `4` first in the third group, the variant digit one of `8`, `9`,
/// `a`, `b` first in the fourth.
pub open spec fn is_uuid_v4_text(s: Seq<char>) -> bool {
    &&& s.len() == 36
    &&& forall|i: int|
        0 <= i < 36 ==> if i == 8 || i == 13 || i == 18 || i == 23 {
            #[trigger] s[i] == '-'
        } else {
            is_lower_hex_digit(s[i])
        }
    &&& s[14] == '4'
    &&& (s[19] == '8' || s[19] == '9' || s[19] == 'a' || s[19] == 'b')
}

/// Calls `uuid::Uuid::new_v4` and formats the result with `Display`.
/// Claimed: the text has the hyphenated lower-case form of a version 4 UUID
/// (`new_v4` masks the version and variant bits into random bits, and
/// `Display` writes the hyphenated lower-case form).  Which UUID comes out
/// is chance and is not stated; `new_v4` panics where the system has no
/// source of random bytes.
#[verifier::external_body]
pub(crate) fn random_uuid_text() -> (s: String)
    ensures
        is_uuid_v4_text(s@),
{
    Uuid::new_v4().to_string()
}

} // verus!
