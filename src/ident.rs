use vstd::prelude::*;

verus! {

/// The number of characters in a rendered external identifier.
pub const EXTERNAL_ID_LEN: usize = 36;

pub open spec fn is_lower_hex_digit(c: char) -> bool {
    ('0' <= c && c <= '9') || ('a' <= c && c <= 'f')
}

pub open spec fn is_hyphen_position(i: int) -> bool {
    i == 8 || i == 13 || i == 18 || i == 23
}

/// A random (version 4) identifier in its hyphenated lower-case form:
/// `xxxxxxxx-xxxx-4xxx-xxxx-xxxxxxxxxxxx`.
pub open spec fn is_external_id(s: Seq<char>) -> bool {
    &&& s.len() == EXTERNAL_ID_LEN
    &&& forall|i: int|
        0 <= i < s.len() ==> if is_hyphen_position(i) {
            s[i] == '-'
        } else {
            is_lower_hex_digit(#[trigger] s[i])
        }
    &&& s[14] == '4'
}

/// Relies on `uuid::Uuid::new_v4` for 128 random bits marked as version 4,
/// and on the `Display` impl of `uuid::Uuid`, which writes the hyphenated
/// lower-case form. `new_v4` panics only when the system's random source fails.
#[verifier::external_body]
pub(crate) fn random_uuid_text() -> (r: String)
    ensures
        is_external_id(r@),
{
    uuid::Uuid::new_v4().to_string()
}

/// Tells whether `s` has the form of an external identifier.
pub fn check_external_id(s: &str) -> (r: bool)
    ensures
        r == is_external_id(s@),
{
    let n = s.unicode_len();
    if n != EXTERNAL_ID_LEN {
        return false;
    }
    let mut i: usize = 0;
    while i < n
        invariant
            n == s@.len(),
            n == EXTERNAL_ID_LEN,
            i <= n,
            forall|j: int|
                0 <= j < i ==> if is_hyphen_position(j) {
                    s@[j] == '-'
                } else {
                    is_lower_hex_digit(#[trigger] s@[j])
                },
        decreases n - i,
    {
        let c = s.get_char(i);
        let ok = if i == 8 || i == 13 || i == 18 || i == 23 {
            c == '-'
        } else {
            ('0' <= c && c <= '9') || ('a' <= c && c <= 'f')
        };
        if !ok {
            return false;
        }
        i = i + 1;
    }
    s.get_char(14) == '4'
}

} // verus!
