use vstd::prelude::*;

verus! {

/// The bits of a 128-bit identifier that hold its version and variant.
pub const VERSION_VARIANT_MASK: u128 = 0x0000_0000_0000_f000_c000_0000_0000_0000;

/// What those bits hold in a randomly drawn (version 4) identifier.
pub const RANDOM_VERSION_VARIANT: u128 = 0x0000_0000_0000_4000_8000_0000_0000_0000;

/// Whether an identifier is marked as randomly drawn.
pub open spec fn is_random_id(id: u128) -> bool {
    id & VERSION_VARIANT_MASK == RANDOM_VERSION_VARIANT
}

/// The character that stands for a value below sixteen in lower-case
/// hexadecimal.
pub open spec fn hex_digit(n: u128) -> char {
    if n < 10 {
        (('0' as u128) + n) as char
    } else {
        (('a' as u128) + n - 10) as char
    }
}

/// The hexadecimal digit of an identifier at place `k`, counted from the
/// highest digit, which is at place 0, to the lowest, at place 31.
pub open spec fn digit_at(id: u128, k: int) -> u128 {
    (id >> ((4 * (31 - k)) as u128)) & 0xf
}

/// The hyphenated text of an identifier: its 32 hexadecimal digits, highest
/// first, in groups of 8, 4, 4, 4 and 12 with a hyphen between groups.
pub open spec fn hyphenated(id: u128) -> Seq<char> {
    Seq::new(
        36,
        |i: int|
            if i == 8 || i == 13 || i == 18 || i == 23 {
                '-'
            } else if i < 8 {
                hex_digit(digit_at(id, i))
            } else if i < 13 {
                hex_digit(digit_at(id, i - 1))
            } else if i < 18 {
                hex_digit(digit_at(id, i - 2))
            } else if i < 23 {
                hex_digit(digit_at(id, i - 3))
            } else {
                hex_digit(digit_at(id, i - 4))
            },
    )
}

/// Draws an identifier with `uuid::Uuid::new_v4` and hands out its 128 bits.
/// Claimed: the bits carry the marks of a random identifier, which the crate
/// sets on every value it draws. Which identifier comes back is left open.
/// The crate aborts where the system has no random bytes to give.
#[verifier::external_body]
pub(crate) fn random_uuid() -> (id: u128)
    ensures
        is_random_id(id),
{
    uuid::Uuid::new_v4().as_u128()
}

/// Writes an identifier as text with `uuid::Uuid::to_string`, after building
/// the value with `uuid::Uuid::from_u128`. Claimed: the text is the
/// lower-case hyphenated form of the 128 bits.
#[verifier::external_body]
pub(crate) fn uuid_text(id: u128) -> (r: String)
    ensures
        r@ == hyphenated(id),
{
    uuid::Uuid::from_u128(id).to_string()
}

} // verus!
