//! Correlation identifiers. A request that arrives without one is assigned a
//! freshly generated identifier in canonical UUID form: 36 characters, four
//! hyphens, lowercase hexadecimal digits, a version nibble of `4` and a
//! variant nibble of `8`, `9`, `a` or `b`.

use vstd::prelude::*;
use vstd::string::StrSliceExecFns;

verus! {

/// The four hyphen positions of a canonical UUID string.
pub open spec fn is_hyphen_pos(i: int) -> bool {
    i == 8 || i == 13 || i == 18 || i == 23
}

pub open spec fn is_lower_hex_digit(c: char) -> bool {
    (('0' as u32) <= (c as u32) && (c as u32) <= ('9' as u32)) || (('a' as u32) <= (c as u32)
        && (c as u32) <= ('f' as u32))
}

/// What one position of a canonical generated identifier must hold: a hyphen
/// at the four hyphen positions, the version digit `4` at position 14, a
/// variant digit at position 19, and a lowercase hexadecimal digit elsewhere.
pub open spec fn id_char_ok(s: Seq<char>, i: int) -> bool {
    if is_hyphen_pos(i) {
        s[i] == '-'
    } else if i == 14 {
        s[i] == '4'
    } else if i == 19 {
        s[i] == '8' || s[i] == '9' || s[i] == 'a' || s[i] == 'b'
    } else {
        is_lower_hex_digit(s[i])
    }
}

/// A canonical generated correlation identifier: the text form of a random
/// version-4 UUID.
pub open spec fn is_canonical_request_id(s: Seq<char>) -> bool {
    s.len() == 36 && (forall|i: int| 0 <= i < 36 ==> id_char_ok(s, i))
}

/// Decides `is_canonical_request_id` on a given string.
pub fn looks_like_generated_id(s: &str) -> (r: bool)
    ensures
        r == is_canonical_request_id(s@),
{
    if s.unicode_len() != 36 {
        return false;
    }
    let mut i: usize = 0;
    while i < 36
        invariant
            s@.len() == 36,
            i <= 36,
            forall|j: int| 0 <= j < i ==> id_char_ok(s@, j),
        decreases 36 - i,
    {
        let c = s.get_char(i);
        let u = c as u32;
        let ok: bool = if i == 8 || i == 13 || i == 18 || i == 23 {
            c == '-'
        } else if i == 14 {
            c == '4'
        } else if i == 19 {
            c == '8' || c == '9' || c == 'a' || c == 'b'
        } else {
            (('0' as u32) <= u && u <= ('9' as u32)) || (('a' as u32) <= u && u <= ('f' as u32))
        };
        if !ok {
            assert(!id_char_ok(s@, i as int));
            return false;
        }
        assert(id_char_ok(s@, i as int));
        i += 1;
    }
    true
}

/// Relies on `uuid::Uuid::new_v4` and its `Display` form: a random
/// version-4, RFC 4122-variant UUID rendered as 36 hyphenated lowercase
/// hexadecimal characters. The value itself is random; only its shape is
/// stated.
#[verifier::external_body]
pub(crate) fn fresh_request_id() -> (r: String)
    ensures
        is_canonical_request_id(r@),
{
    uuid::Uuid::new_v4().to_string()
}

} // verus!
