//! Resource identifiers. A UUID is held as its 128-bit value and written in
//! the hyphenated lower-case form, eight, four, four, four and twelve
//! hexadecimal digits.

use vstd::arithmetic::power::pow;
use vstd::prelude::*;

verus! {

/// The lower-case hexadecimal digit for `n`, which is below 16.
pub open spec fn hex_digit(n: int) -> char
    recommends
        0 <= n < 16,
{
    "0123456789abcdef"@[n]
}

/// The `k`-th of the 32 hexadecimal digits of `id`, the most significant
/// first.
pub open spec fn uuid_digit(id: u128, k: int) -> int
    recommends
        0 <= k < 32,
{
    (id as int / pow(16, (31 - k) as nat)) % 16
}

/// How many hyphens stand before position `i` of the hyphenated form.
pub open spec fn hyphens_before(i: int) -> int {
    if i > 23 {
        4
    } else if i > 18 {
        3
    } else if i > 13 {
        2
    } else if i > 8 {
        1
    } else {
        0
    }
}

/// The hyphenated lower-case text of the UUID whose value is `id`: 36
/// characters, hyphens at positions 8, 13, 18 and 23, and the 32 digits of
/// `id` in order at the others.
pub open spec fn uuid_text(id: u128) -> Seq<char> {
    Seq::new(
        36,
        |i: int|
            if i == 8 || i == 13 || i == 18 || i == 23 {
                '-'
            } else {
                hex_digit(uuid_digit(id, i - hyphens_before(i)))
            },
    )
}

/// The text of an identifier has 36 characters: a hyphen at each of the four
/// places, and a lower-case hexadecimal digit at every other.
pub proof fn lemma_uuid_text_shape(id: u128, i: int)
    requires
        0 <= i < 36,
    ensures
        uuid_text(id).len() == 36,
        (i == 8 || i == 13 || i == 18 || i == 23) ==> uuid_text(id)[i] == '-',
        !(i == 8 || i == 13 || i == 18 || i == 23) ==> ({
            let c = uuid_text(id)[i];
            ('0' <= c <= '9') || ('a' <= c <= 'f')
        }),
{
    reveal_strlit("0123456789abcdef");
    if !(i == 8 || i == 13 || i == 18 || i == 23) {
        let n = uuid_digit(id, i - hyphens_before(i));
        assert(0 <= n < 16);
        let digits = "0123456789abcdef"@;
        assert(digits.len() == 16);
        assert(digits[n] == hex_digit(n));
        assert(n == 0 || n == 1 || n == 2 || n == 3 || n == 4 || n == 5 || n == 6 || n == 7 || n
            == 8 || n == 9 || n == 10 || n == 11 || n == 12 || n == 13 || n == 14 || n == 15);
    }
}

/// Calls `uuid::Uuid::from_u128` and renders the UUID through its `Display`,
/// which the crate defines as the hyphenated lower-case form. The contract
/// claims that this text is `uuid_text(id)`.
#[verifier::external_body]
pub(crate) fn render_uuid(id: u128) -> (r: String)
    ensures
        r@ == uuid_text(id),
{
    uuid::Uuid::from_u128(id).to_string()
}

} // verus!
