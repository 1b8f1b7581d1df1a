use vstd::prelude::*;

verus! {

/// The hexadecimal digit (lower case) for a value in `0..16`.
pub open spec fn hex_digit(n: int) -> char {
    if n < 10 {
        ('0' as int + n) as char
    } else {
        ('a' as int + (n - 10)) as char
    }
}

/// The `k`-th hexadecimal digit of `id`, counting from the most
/// significant one (`k` in `0..32`).
pub open spec fn id_nibble(id: u128, k: int) -> int {
    ((id as int) / vstd::arithmetic::power::pow(16, (31 - k) as nat)) % 16
}

/// Which hexadecimal digit stands at position `i` of the hyphenated text.
pub open spec fn digit_index(i: int) -> int {
    if i < 8 {
        i
    } else if i < 13 {
        i - 1
    } else if i < 18 {
        i - 2
    } else if i < 23 {
        i - 3
    } else {
        i - 4
    }
}

/// The hyphenated lower-case text of a machine id: its 32 hexadecimal digits,
/// most significant first, in groups of 8-4-4-4-12 joined by `-`.
pub open spec fn id_text(id: u128) -> Seq<char> {
    Seq::new(
        36,
        |i: int|
            if i == 8 || i == 13 || i == 18 || i == 23 {
                '-'
            } else {
                hex_digit(id_nibble(id, digit_index(i)))
            },
    )
}

/// Writes a machine id the way `uuid::Uuid`'s `Display` does.
///
/// Trusted: `Uuid::from_u128` takes the value's big-endian bytes, and the
/// `Display` impl of `Uuid` writes the hyphenated form in lower case; the
/// contract claims the result is `id_text(id)`.
#[verifier::external_body]
pub(crate) fn machine_id_text(id: u128) -> (text: String)
    ensures
        text@ == id_text(id),
{
    format!("{}", uuid::Uuid::from_u128(id))
}

} // verus!
