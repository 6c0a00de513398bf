use vstd::prelude::*;

verus! {

/// The lowercase hexadecimal digit of `n`, for `0 <= n < 16`.
pub open spec fn hex_digit(n: nat) -> char {
    seq!['0', '1', '2', '3', '4', '5', '6', '7', '8', '9', 'a', 'b', 'c', 'd', 'e', 'f'][n as int]
}

/// The `i`-th of the 32 hexadecimal digits of `v`, most significant first.
pub open spec fn nibble(v: u128, i: int) -> nat {
    (v as nat / vstd::arithmetic::power2::pow2((124 - 4 * i) as nat)) % 16
}

/// Where the digit shown at position `p` of the hyphenated form comes from.
pub open spec fn digit_index(p: int) -> int {
    if p < 8 {
        p
    } else if p < 13 {
        p - 1
    } else if p < 18 {
        p - 2
    } else if p < 23 {
        p - 3
    } else {
        p - 4
    }
}

/// The hyphenated text of an identifier: its 32 lowercase hexadecimal
/// digits, most significant first, grouped 8-4-4-4-12.
pub open spec fn identifier_text(v: u128) -> Seq<char> {
    Seq::new(
        36,
        |p: int|
            if p == 8 || p == 13 || p == 18 || p == 23 {
                '-'
            } else {
                hex_digit(nibble(v, digit_index(p)))
            },
    )
}

/// The identifier that a text names, as the uuid crate reads it; `None` where
/// it names none.
pub uninterp spec fn parsed_identifier(s: Seq<char>) -> Option<u128>;

/// Relies on uuid's `Uuid::from_u128` and the `Display` of `as_hyphenated`:
/// the big-endian bytes of `id` as lowercase hexadecimal in 8-4-4-4-12 groups.
#[verifier::external_body]
pub(crate) fn format_identifier(id: u128) -> (r: String)
    ensures
        r@ == identifier_text(id),
{
    uuid::Uuid::from_u128(id).as_hyphenated().to_string()
}

/// Relies on uuid's `Uuid::parse_str` and `as_u128`: a result that depends on
/// the text alone, which gives back every identifier from its hyphenated text.
#[verifier::external_body]
pub(crate) fn parse_identifier(s: &String) -> (r: Option<u128>)
    ensures
        r == parsed_identifier(s@),
        forall|v: u128| s@ == identifier_text(v) ==> r == Some(v),
{
    uuid::Uuid::parse_str(s.as_str()).ok().map(|u| u.as_u128())
}

} // verus!
