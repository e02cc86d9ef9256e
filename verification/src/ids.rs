//! Identifiers: 128-bit UUIDs and their text form.
use vstd::prelude::*;

verus! {

pub open spec fn spec_pow16(k: nat) -> int
    decreases k,
{
    if k == 0 {
        1
    } else {
        16 * spec_pow16((k - 1) as nat)
    }
}

/// The lower-case hex digit for `d` in 0..=15.
pub open spec fn spec_hex_lower(d: int) -> char {
    if d < 10 {
        (0x30 + d) as char
    } else {
        (0x61 - 10 + d) as char
    }
}

/// The `k`-th of the 32 hex digits of `v`, the most significant first.
pub open spec fn spec_nibble(v: u128, k: int) -> int {
    (v as int / spec_pow16((31 - k) as nat)) % 16
}

/// How many of the 32 digits come before text position `i` of the hyphenated form.
pub open spec fn spec_digit_index(i: int) -> int {
    if i < 8 {
        i
    } else if i < 13 {
        i - 1
    } else if i < 18 {
        i - 2
    } else if i < 23 {
        i - 3
    } else {
        i - 4
    }
}

/// The hyphenated lower-case form of a UUID: 8-4-4-4-12 hex digits.
pub open spec fn spec_uuid_text(v: u128) -> Seq<char> {
    Seq::new(
        36,
        |i: int|
            if i == 8 || i == 13 || i == 18 || i == 23 {
                '-'
            } else {
                spec_hex_lower(spec_nibble(v, spec_digit_index(i)))
            },
    )
}

/// `uuid::Uuid::from_u128(v).to_string()`.
#[verifier::external_body]
pub(crate) fn uuid_string(v: u128) -> (s: String)
    ensures
        s@ == spec_uuid_text(v),
{
    uuid::Uuid::from_u128(v).to_string()
}

} // verus!
