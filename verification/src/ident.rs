//! Identifiers. A session, a user, a topic and a stored row are each known
//! by a 128-bit value, the integer form of a UUID.

use vstd::prelude::*;

verus! {

/// The sixteen lower-case hexadecimal digits.
pub open spec fn hex_digits() -> Seq<char> {
    seq!['0', '1', '2', '3', '4', '5', '6', '7', '8', '9', 'a', 'b', 'c', 'd', 'e', 'f']
}

/// Nibble `k` of the 32 nibbles of `id`, the most significant first.
pub open spec fn id_nibble(id: u128, k: int) -> u128 {
    (id >> ((4 * (31 - k)) as u128)) & 0xf
}

/// Digit `k` of the 32 hexadecimal digits of `id`, the most significant first.
pub open spec fn id_digit(id: u128, k: int) -> char {
    hex_digits()[id_nibble(id, k) as int]
}

/// How many hyphens stand before position `i` of the hyphenated text.
pub open spec fn hyphens_before(i: int) -> int {
    if i > 23 {
        4
    } else if i > 18 {
        3
    } else if i > 13 {
        2
    } else if i > 8 {
        1
    } else {
        0
    }
}

/// The hyphenated text of an identifier: 32 lower-case hexadecimal digits in
/// groups of 8, 4, 4, 4 and 12, such as
/// `a1a2a3a4-b1b2-c1c2-d1d2-d3d4d5d6d7d8`.
pub open spec fn id_text(id: u128) -> Seq<char> {
    Seq::new(
        36,
        |i: int|
            if i == 8 || i == 13 || i == 18 || i == 23 {
                '-'
            } else {
                id_digit(id, i - hyphens_before(i))
            },
    )
}

/// What `uuid::Uuid::parse_str` makes of a text: the identifier it reads, or
/// `None` where it reports an error.
pub uninterp spec fn parsed_id(text: Seq<char>) -> Option<u128>;

/// Draws a random identifier with `uuid::Uuid::new_v4`. Whatever the
/// generator gives, the version field holds 4 and the variant field the two
/// bits `10`.
#[verifier::external_body]
pub(crate) fn random_id() -> (id: u128)
    ensures
        id & 0x0000_0000_0000_f000_c000_0000_0000_0000 == 0x0000_0000_0000_4000_8000_0000_0000_0000,
{
    uuid::Uuid::new_v4().as_u128()
}

/// Writes an identifier as `uuid::Uuid` displays it: hyphenated, in lower
/// case.
#[verifier::external_body]
pub(crate) fn display_id(id: u128) -> (text: String)
    ensures
        text@ == id_text(id),
{
    uuid::Uuid::from_u128(id).to_string()
}

/// Reads an identifier with `uuid::Uuid::parse_str`. The contract names the
/// result, which depends on the text alone.
#[verifier::external_body]
pub(crate) fn parse_id(text: &str) -> (id: Option<u128>)
    ensures
        id == parsed_id(text@),
{
    match uuid::Uuid::parse_str(text) {
        Ok(parsed) => Some(parsed.as_u128()),
        Err(_) => None,
    }
}

/// Two identifiers with the same 32 nibbles are one identifier.
proof fn lemma_nibbles_determine_id(a: u128, b: u128)
    requires
        forall|k: int| 0 <= k < 32 ==> id_nibble(a, k) == id_nibble(b, k),
    ensures
        a == b,
{
    assert(id_nibble(a, 0) == id_nibble(b, 0));
    assert(id_nibble(a, 1) == id_nibble(b, 1));
    assert(id_nibble(a, 2) == id_nibble(b, 2));
    assert(id_nibble(a, 3) == id_nibble(b, 3));
    assert(id_nibble(a, 4) == id_nibble(b, 4));
    assert(id_nibble(a, 5) == id_nibble(b, 5));
    assert(id_nibble(a, 6) == id_nibble(b, 6));
    assert(id_nibble(a, 7) == id_nibble(b, 7));
    assert(id_nibble(a, 8) == id_nibble(b, 8));
    assert(id_nibble(a, 9) == id_nibble(b, 9));
    assert(id_nibble(a, 10) == id_nibble(b, 10));
    assert(id_nibble(a, 11) == id_nibble(b, 11));
    assert(id_nibble(a, 12) == id_nibble(b, 12));
    assert(id_nibble(a, 13) == id_nibble(b, 13));
    assert(id_nibble(a, 14) == id_nibble(b, 14));
    assert(id_nibble(a, 15) == id_nibble(b, 15));
    assert(id_nibble(a, 16) == id_nibble(b, 16));
    assert(id_nibble(a, 17) == id_nibble(b, 17));
    assert(id_nibble(a, 18) == id_nibble(b, 18));
    assert(id_nibble(a, 19) == id_nibble(b, 19));
    assert(id_nibble(a, 20) == id_nibble(b, 20));
    assert(id_nibble(a, 21) == id_nibble(b, 21));
    assert(id_nibble(a, 22) == id_nibble(b, 22));
    assert(id_nibble(a, 23) == id_nibble(b, 23));
    assert(id_nibble(a, 24) == id_nibble(b, 24));
    assert(id_nibble(a, 25) == id_nibble(b, 25));
    assert(id_nibble(a, 26) == id_nibble(b, 26));
    assert(id_nibble(a, 27) == id_nibble(b, 27));
    assert(id_nibble(a, 28) == id_nibble(b, 28));
    assert(id_nibble(a, 29) == id_nibble(b, 29));
    assert(id_nibble(a, 30) == id_nibble(b, 30));
    assert(id_nibble(a, 31) == id_nibble(b, 31));
    assert(((a >> 124) & 0xf) == ((b >> 124) & 0xf) && ((a >> 120) & 0xf) == ((b >> 120) & 0xf) && ((a
        >> 116) & 0xf) == ((b >> 116) & 0xf) && ((a >> 112) & 0xf) == ((b >> 112) & 0xf) && ((a
        >> 108) & 0xf) == ((b >> 108) & 0xf) && ((a >> 104) & 0xf) == ((b >> 104) & 0xf) && ((a
        >> 100) & 0xf) == ((b >> 100) & 0xf) && ((a >> 96) & 0xf) == ((b >> 96) & 0xf) && ((a
        >> 92) & 0xf) == ((b >> 92) & 0xf) && ((a >> 88) & 0xf) == ((b >> 88) & 0xf) && ((a >> 84)
        & 0xf) == ((b >> 84) & 0xf) && ((a >> 80) & 0xf) == ((b >> 80) & 0xf) && ((a >> 76) & 0xf)
        == ((b >> 76) & 0xf) && ((a >> 72) & 0xf) == ((b >> 72) & 0xf) && ((a >> 68) & 0xf) == ((b
        >> 68) & 0xf) && ((a >> 64) & 0xf) == ((b >> 64) & 0xf) && ((a >> 60) & 0xf) == ((b >> 60)
        & 0xf) && ((a >> 56) & 0xf) == ((b >> 56) & 0xf) && ((a >> 52) & 0xf) == ((b >> 52) & 0xf)
        && ((a >> 48) & 0xf) == ((b >> 48) & 0xf) && ((a >> 44) & 0xf) == ((b >> 44) & 0xf) && ((a
        >> 40) & 0xf) == ((b >> 40) & 0xf) && ((a >> 36) & 0xf) == ((b >> 36) & 0xf) && ((a >> 32)
        & 0xf) == ((b >> 32) & 0xf) && ((a >> 28) & 0xf) == ((b >> 28) & 0xf) && ((a >> 24) & 0xf)
        == ((b >> 24) & 0xf) && ((a >> 20) & 0xf) == ((b >> 20) & 0xf) && ((a >> 16) & 0xf) == ((b
        >> 16) & 0xf) && ((a >> 12) & 0xf) == ((b >> 12) & 0xf) && ((a >> 8) & 0xf) == ((b >> 8)
        & 0xf) && ((a >> 4) & 0xf) == ((b >> 4) & 0xf) && ((a >> 0) & 0xf) == ((b >> 0) & 0xf)
        ==> a == b) by (bit_vector);
}

/// A nibble is below sixteen.
proof fn lemma_nibble_is_small(id: u128, k: int)
    ensures
        id_nibble(id, k) < 16,
{
    let shift = (4 * (31 - k)) as u128;
    assert(((id >> shift) & 0xf) < 16) by (bit_vector);
}

/// The sixteen digits are sixteen characters: a digit tells its nibble.
proof fn lemma_digit_tells_nibble(x: int, y: int)
    requires
        0 <= x < 16,
        0 <= y < 16,
        hex_digits()[x] == hex_digits()[y],
    ensures
        x == y,
{
}

/// The position of digit `k` in the hyphenated text.
pub open spec fn digit_position(k: int) -> int {
    if k >= 20 {
        k + 4
    } else if k >= 16 {
        k + 3
    } else if k >= 12 {
        k + 2
    } else if k >= 8 {
        k + 1
    } else {
        k
    }
}

/// The hyphenated text tells the identifier: two identifiers with the same
/// text are one identifier.
pub proof fn lemma_id_text_is_injective(a: u128, b: u128)
    requires
        id_text(a) == id_text(b),
    ensures
        a == b,
{
    assert forall|k: int| 0 <= k < 32 implies id_nibble(a, k) == id_nibble(b, k) by {
        let i = digit_position(k);
        assert(id_text(a)[i] == id_digit(a, k));
        assert(id_text(b)[i] == id_digit(b, k));
        lemma_nibble_is_small(a, k);
        lemma_nibble_is_small(b, k);
        lemma_digit_tells_nibble(id_nibble(a, k) as int, id_nibble(b, k) as int);
    }
    lemma_nibbles_determine_id(a, b);
}

} // verus!
