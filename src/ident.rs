//! Bit identifiers: 128-bit UUID values and their canonical text.
use vstd::prelude::*;

verus! {

/// Lower-case hexadecimal digit of `d` (in `0..16`).
pub open spec fn hex_char(d: int) -> char {
    if d < 10 {
        crate::fixed::digit_char(d as nat)
    } else if d == 10 { 'a' } else if d == 11 { 'b' } else if d == 12 { 'c' }
    else if d == 13 { 'd' } else if d == 14 { 'e' } else { 'f' }
}

/// The `k`-th of the 32 hexadecimal digits of `id`, most significant first.
pub open spec fn nibble(id: u128, k: int) -> int {
    (id as int / vstd::arithmetic::power::pow(16, (31 - k) as nat)) % 16
}

/// Canonical hyphenated text of an identifier: 32 lower-case hexadecimal digits
/// in groups of 8, 4, 4, 4 and 12, joined by `-`.
pub open spec fn uuid_text(id: u128) -> Seq<char> {
    Seq::new(
        36,
        |i: int|
            if i == 8 || i == 13 || i == 18 || i == 23 {
                '-'
            } else {
                let hyphens_before: int = if i < 8 { 0 } else if i < 13 { 1 } else if i < 18 { 2 } else if i < 23 { 3 } else { 4 };
                hex_char(nibble(id, i - hyphens_before))
            },
    )
}

/// True when `id` carries the version (random) and variant bits of a
/// version-4 identifier.
pub open spec fn is_random_id(id: u128) -> bool {
    id & 0xF000C000000000000000u128 == 0x40008000000000000000u128
}

/// Relies on uuid's `Display` for `Uuid` (lower-case hyphenated form) of
/// `Uuid::from_u128(id)`.
#[verifier::external_body]
pub(crate) fn bit_id_text(id: u128) -> (r: String)
    ensures
        r@ == uuid_text(id),
{
    uuid::Uuid::from_u128(id).to_string()
}

/// Relies on uuid's `Uuid::new_v4`: random bits with the version nibble set to
/// 4 and the variant bits to `10`.
#[verifier::external_body]
pub(crate) fn new_bit_id() -> (r: u128)
    ensures
        is_random_id(r),
{
    uuid::Uuid::new_v4().as_u128()
}

} // verus!
