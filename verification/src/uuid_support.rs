//! The calls into the `uuid` crate: random identifiers, parsing and formatting.

use vstd::prelude::*;

verus! {

/// What `uuid::Uuid::parse_str` yields for a text, as the UUID's 128-bit value.
pub uninterp spec fn uuid_parse_result(s: Seq<char>) -> Option<u128>;

/// The lower-case hexadecimal digit for a value below 16.
pub open spec fn hex_char(n: u128) -> char {
    if n < 10 {
        (48 + n) as char
    } else {
        (87 + n) as char
    }
}

/// The `k`-th hexadecimal digit of a 128-bit value, the most significant first.
pub open spec fn uuid_nibble(v: u128, k: int) -> u128 {
    (v >> ((124 - 4 * k) as u128)) & 0xfu128
}

/// Which of the 32 digits stands at position `i` of the hyphenated form.
pub open spec fn digit_index(i: int) -> int {
    if i < 8 {
        i
    } else if i < 13 {
        i - 1
    } else if i < 18 {
        i - 2
    } else if i < 23 {
        i - 3
    } else {
        i - 4
    }
}

/// The hyphenated lower-case form of a UUID value,
/// `xxxxxxxx-xxxx-xxxx-xxxx-xxxxxxxxxxxx`: its 32 hexadecimal digits, most
/// significant first, with hyphens at positions 8, 13, 18 and 23.
pub closed spec fn uuid_text(v: u128) -> Seq<char> {
    Seq::new(
        36,
        |i: int|
            if i == 8 || i == 13 || i == 18 || i == 23 {
                '-'
            } else {
                hex_char(uuid_nibble(v, digit_index(i)))
            },
    )
}

/// The hyphenated form has 36 characters, each a lower-case hexadecimal digit
/// or a hyphen.
pub proof fn lemma_uuid_text_shape(v: u128)
    ensures
        uuid_text(v).len() == 36,
        forall|i: int| 0 <= i < 36 ==> is_lower_hex_or_hyphen(#[trigger] uuid_text(v)[i]),
{
    assert forall|i: int| 0 <= i < 36 implies is_lower_hex_or_hyphen(#[trigger] uuid_text(v)[i]) by {
        if !(i == 8 || i == 13 || i == 18 || i == 23) {
            let k = digit_index(i);
            let sh = (124 - 4 * k) as u128;
            let n = (v >> sh) & 0xfu128;
            assert(n <= 15) by (bit_vector)
                requires
                    n == (v >> sh) & 0xfu128,
            ;
        }
    }
}

pub open spec fn is_lower_hex_or_hyphen(c: char) -> bool {
    (48 <= c as u32 && c as u32 <= 57) || (97 <= c as u32 && c as u32 <= 102) || c == '-'
}

/// A version-4 UUID value: the version field (bits 76 to 79) holds 4 and the
/// variant field (bits 62 and 63) holds the RFC 4122 variant, binary `10`.
pub open spec fn is_v4(v: u128) -> bool {
    &&& (v >> 76u128) & 0xfu128 == 4u128
    &&& (v >> 62u128) & 0x3u128 == 2u128
}

/// A random version-4 UUID from `uuid::Uuid::new_v4`, as its 128-bit value.
/// The crate masks random bits and sets the version and variant fields, so the
/// value is a version-4 UUID; the other 122 bits come from the random number
/// source and nothing is promised of them.
#[verifier::external_body]
pub(crate) fn new_uuid() -> (r: u128)
    ensures
        is_v4(r),
{
    uuid::Uuid::new_v4().as_u128()
}

/// `uuid::Uuid::parse_str`: the value is the one the crate's parser yields for the text.
#[verifier::external_body]
pub(crate) fn parse_uuid(s: &str) -> (r: Option<u128>)
    ensures
        r == uuid_parse_result(s@),
{
    match uuid::Uuid::parse_str(s) {
        Ok(u) => Some(u.as_u128()),
        Err(_) => None,
    }
}

/// `uuid::Uuid`'s `Display` (`to_string`): the lower-case hyphenated form
/// `xxxxxxxx-xxxx-xxxx-xxxx-xxxxxxxxxxxx` of the value's 16 bytes, most
/// significant first, which `parse_str` reads back to the same value.
#[verifier::external_body]
pub(crate) fn format_uuid(v: u128) -> (r: String)
    ensures
        r@ == uuid_text(v),
        uuid_parse_result(r@) == Some(v),
{
    uuid::Uuid::from_u128(v).to_string()
}

} // verus!
