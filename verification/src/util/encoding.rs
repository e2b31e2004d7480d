//! Text forms that other crates compute, and what is relied on of them.

use vstd::prelude::*;

verus! {

/// The decimal digit that stands for `d`, for `d` below ten.
pub open spec fn digit_char(d: nat) -> char {
    if d == 0 {
        '0'
    } else if d == 1 {
        '1'
    } else if d == 2 {
        '2'
    } else if d == 3 {
        '3'
    } else if d == 4 {
        '4'
    } else if d == 5 {
        '5'
    } else if d == 6 {
        '6'
    } else if d == 7 {
        '7'
    } else if d == 8 {
        '8'
    } else {
        '9'
    }
}

/// The decimal notation of `n`, without sign or leading zeros.
pub open spec fn decimal_text(n: nat) -> Seq<char>
    decreases n,
{
    if n < 10 {
        seq![digit_char(n)]
    } else {
        decimal_text(n / 10).push(digit_char(n % 10))
    }
}

/// `Uint128`'s `to_string`, which `cosmwasm_std` defines as the formatting of
/// the `u128` inside: the amount in decimal notation, as the registry reads it.
#[verifier::external_body]
pub(crate) fn uint128_text(amount: u128) -> (r: String)
    ensures
        r@ == decimal_text(amount as nat),
{
    cosmwasm_std::Uint128::new(amount).to_string()
}

/// The lower-case hexadecimal digit that stands for `n`, for `n` below sixteen.
pub open spec fn hex_digit(n: nat) -> char {
    if n < 10 {
        digit_char(n)
    } else if n == 10 {
        'a'
    } else if n == 11 {
        'b'
    } else if n == 12 {
        'c'
    } else if n == 13 {
        'd'
    } else if n == 14 {
        'e'
    } else {
        'f'
    }
}

/// The number that the hexadecimal digit `c` stands for, in either case.
pub open spec fn hex_value(c: char) -> Option<nat> {
    if c == '0' {
        Some(0)
    } else if c == '1' {
        Some(1)
    } else if c == '2' {
        Some(2)
    } else if c == '3' {
        Some(3)
    } else if c == '4' {
        Some(4)
    } else if c == '5' {
        Some(5)
    } else if c == '6' {
        Some(6)
    } else if c == '7' {
        Some(7)
    } else if c == '8' {
        Some(8)
    } else if c == '9' {
        Some(9)
    } else if c == 'a' || c == 'A' {
        Some(10)
    } else if c == 'b' || c == 'B' {
        Some(11)
    } else if c == 'c' || c == 'C' {
        Some(12)
    } else if c == 'd' || c == 'D' {
        Some(13)
    } else if c == 'e' || c == 'E' {
        Some(14)
    } else if c == 'f' || c == 'F' {
        Some(15)
    } else {
        None
    }
}

/// The bytes in lower-case hexadecimal notation: two digits a byte, the high
/// half first.
pub open spec fn hex_lower_text(bytes: Seq<u8>) -> Seq<char> {
    Seq::new(
        2 * bytes.len(),
        |i: int|
            if i % 2 == 0 {
                hex_digit((bytes[i / 2] / 16) as nat)
            } else {
                hex_digit((bytes[i / 2] % 16) as nat)
            },
    )
}

/// `text` is hexadecimal notation of bytes: digits only, two a byte.
pub open spec fn is_hex_text(text: Seq<char>) -> bool {
    &&& text.len() % 2 == 0
    &&& forall|i: int| 0 <= i < text.len() ==> hex_value(#[trigger] text[i]) is Some
}

/// The bytes that the hexadecimal notation `text` stands for.
pub open spec fn hex_bytes(text: Seq<char>) -> Seq<u8> {
    Seq::new(
        text.len() / 2,
        |i: int| (hex_value(text[2 * i])->0 * 16 + hex_value(text[2 * i + 1])->0) as u8,
    )
}

/// Reading back what was written in lower-case hexadecimal gives the bytes.
pub proof fn lemma_hex_round_trip(bytes: Seq<u8>)
    ensures
        is_hex_text(hex_lower_text(bytes)),
        hex_bytes(hex_lower_text(bytes)) == bytes,
{
    let text = hex_lower_text(bytes);
    assert forall|n: nat| n < 16 implies hex_value(#[trigger] hex_digit(n)) == Some(n) by {}
    assert forall|i: int| 0 <= i < text.len() implies hex_value(#[trigger] text[i]) is Some by {
        let b = bytes[i / 2];
        assert((b / 16) < 16 && (b % 16) < 16);
    }
    assert forall|i: int| 0 <= i < bytes.len() implies hex_bytes(text)[i] == bytes[i] by {
        let b = bytes[i];
        assert((2 * i) / 2 == i && (2 * i) % 2 == 0);
        assert((2 * i + 1) / 2 == i && (2 * i + 1) % 2 == 1);
        assert(text[2 * i] == hex_digit((b / 16) as nat));
        assert(text[2 * i + 1] == hex_digit((b % 16) as nat));
        assert((b / 16) < 16 && (b % 16) < 16);
        assert((b / 16) * 16 + (b % 16) == b);
    }
    assert(hex_bytes(text) =~= bytes);
}

/// `uuid`'s simple format in lower case, written with `encode_lower` into a
/// buffer from `Uuid::encode_buffer`: the sixteen bytes of the identifier in
/// lower-case hexadecimal, without hyphens.
#[verifier::external_body]
pub(crate) fn uuid_simple_lower(bytes: &[u8; 16]) -> (r: String)
    ensures
        r@ == hex_lower_text(bytes@),
{
    let id = uuid::Uuid::from_bytes(*bytes);
    id.simple().encode_lower(&mut uuid::Uuid::encode_buffer()).to_string()
}

#[verifier::external_type_specification]
#[verifier::external_body]
pub struct ExFromHexError(hex::FromHexError);

/// `hex::decode` on a text: it succeeds exactly on an even number of
/// hexadecimal digits of either case, and then gives the bytes they stand
/// for, two digits a byte, the high half first.
#[verifier::external_body]
pub(crate) fn hex_decode(text: &str) -> (r: Result<Vec<u8>, hex::FromHexError>)
    ensures
        r is Ok <==> is_hex_text(text@),
        r is Ok ==> r->Ok_0@ == hex_bytes(text@),
{
    hex::decode(text)
}

#[verifier::external_type_specification]
#[verifier::external_body]
pub struct ExU5(bech32::u5);

#[verifier::external_type_specification]
#[verifier::external_body]
pub struct ExBech32Error(bech32::Error);

/// The five-bit groups into which `bech32`'s `to_base32` regroups bytes.
pub uninterp spec fn base32_groups(bytes: Seq<u8>) -> Seq<bech32::u5>;

/// The text that `bech32::encode` gives for a human readable part and
/// five-bit groups, with the checksum of the Bech32 variant of BIP-173.
pub uninterp spec fn bech32_text(hrp: Seq<char>, data: Seq<bech32::u5>) -> Seq<char>;

/// `ToBase32::to_base32` on bytes: a function of the bytes alone.
#[verifier::external_body]
pub(crate) fn to_base32(bytes: &Vec<u8>) -> (r: Vec<bech32::u5>)
    ensures
        r@ == base32_groups(bytes@),
{
    bech32::ToBase32::to_base32(bytes)
}

/// `c` is a lower-case letter of the Latin alphabet.
pub open spec fn is_lower_letter(c: char) -> bool {
    97 <= c as u32 <= 122
}

/// `c` is an upper-case letter of the Latin alphabet.
pub open spec fn is_upper_letter(c: char) -> bool {
    65 <= c as u32 <= 90
}

/// `hrp` can be the human readable part of a Bech32 text: between one and
/// eighty-three printable characters of US-ASCII, not of both cases.
pub open spec fn hrp_is_valid(hrp: Seq<char>) -> bool {
    &&& 1 <= hrp.len() <= 83
    &&& forall|i: int| 0 <= i < hrp.len() ==> 33 <= #[trigger] hrp[i] as u32 <= 126
    &&& !((exists|i: int| 0 <= i < hrp.len() && is_lower_letter(#[trigger] hrp[i])) && (exists|
        j: int,
    | 0 <= j < hrp.len() && is_upper_letter(#[trigger] hrp[j])))
}

/// `bech32::encode` with the Bech32 variant of BIP-173: it fails exactly where
/// the human readable part is invalid, and its text is a function of the
/// part and the groups alone.
#[verifier::external_body]
pub(crate) fn bech32_encode(hrp: &str, data: Vec<bech32::u5>) -> (r: Result<
    String,
    bech32::Error,
>)
    ensures
        r is Ok <==> hrp_is_valid(hrp@),
        r is Ok ==> r->Ok_0@ == bech32_text(hrp@, data@),
{
    bech32::encode(hrp, data, bech32::Variant::Bech32)
}

} // verus!
