use crate::structs::ActionId;
use vstd::prelude::*;

verus! {

/// The lowercase hexadecimal digit of `n`, for `0 <= n < 16`.
pub open spec fn hex_digit(n: u128) -> char {
    if n < 10 {
        ((n + 48) as u8) as char
    } else {
        ((n + 87) as u8) as char
    }
}

/// The `d`-th hexadecimal digit of `v`, counted from the most significant.
pub open spec fn nibble(v: u128, d: int) -> u128 {
    (v >> ((124 - 4 * d) as u128)) & 15u128
}

/// Which digit the `i`-th character of the hyphenated form shows.
pub open spec fn digit_index(i: int) -> int {
    if i < 8 {
        i
    } else if i < 13 {
        i - 1
    } else if i < 18 {
        i - 2
    } else if i < 23 {
        i - 3
    } else {
        i - 4
    }
}

/// The hyphenated form of a UUID: 32 lowercase hex digits in groups of
/// 8, 4, 4, 4 and 12, most significant first.
pub open spec fn hyphenated(v: u128) -> Seq<char> {
    Seq::new(
        36,
        |i: int|
            if i == 8 || i == 13 || i == 18 || i == 23 {
                '-'
            } else {
                hex_digit(nibble(v, digit_index(i)))
            },
    )
}

/// Relies on `uuid::Uuid::new_v4` (read back with `Uuid::as_u128`): random
/// bits, with the version digit set to 4.
#[verifier::external_body]
pub(crate) fn draw_id() -> (r: ActionId)
    ensures
        (r.value >> 76u128) & 15u128 == 4u128,
{
    ActionId { value: uuid::Uuid::new_v4().as_u128() }
}

/// Relies on uuid's `Display` for `Uuid` (built with `Uuid::from_u128`): the
/// lowercase hyphenated form.
#[verifier::external_body]
pub(crate) fn id_text(id: ActionId) -> (r: String)
    ensures
        r@ == hyphenated(id.value),
{
    uuid::Uuid::from_u128(id.value).to_string()
}

} // verus!
