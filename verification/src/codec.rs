//! Byte encodings that the relayer exchanges with both chains: hexadecimal
//! text, base64, percent-encoding and the Keccak-256 digest. The encoders
//! themselves come from the `ethers`, `hex`, `base64` and `urlencoding`
//! crates; this module states what they compute.

use base64::Engine;
use vstd::prelude::*;

verus! {

/// The lower-case hexadecimal digit for `n < 16`.
pub open spec fn hex_digit(n: nat) -> char {
    if n < 10 {
        crate::decimal::digit_char(n)
    } else if n == 10 {
        'a'
    } else if n == 11 {
        'b'
    } else if n == 12 {
        'c'
    } else if n == 13 {
        'd'
    } else if n == 14 {
        'e'
    } else {
        'f'
    }
}

/// The upper-case hexadecimal digit for `n < 16`.
pub open spec fn hex_digit_upper(n: nat) -> char {
    if n < 10 {
        crate::decimal::digit_char(n)
    } else if n == 10 {
        'A'
    } else if n == 11 {
        'B'
    } else if n == 12 {
        'C'
    } else if n == 13 {
        'D'
    } else if n == 14 {
        'E'
    } else {
        'F'
    }
}

pub open spec fn is_hex_digit(c: char) -> bool {
    ('0' <= c && c <= '9') || ('a' <= c && c <= 'f') || ('A' <= c && c <= 'F')
}

/// The value of a hexadecimal digit of either case.
pub open spec fn hex_digit_value(c: char) -> nat {
    if '0' <= c && c <= '9' {
        (c as int - 48) as nat
    } else if 'a' <= c && c <= 'f' {
        (c as int - 87) as nat
    } else {
        (c as int - 55) as nat
    }
}

pub open spec fn all_hex_digits(s: Seq<char>) -> bool {
    forall|i: int| 0 <= i < s.len() ==> is_hex_digit(#[trigger] s[i])
}

/// Two lower-case hexadecimal digits per byte, high nibble first.
pub open spec fn hex_text(bytes: Seq<u8>) -> Seq<char> {
    Seq::new(
        2 * bytes.len(),
        |i: int|
            if i % 2 == 0 {
                hex_digit((bytes[i / 2] / 16) as nat)
            } else {
                hex_digit((bytes[i / 2] % 16) as nat)
            },
    )
}

/// `0x` followed by the hexadecimal text of `bytes`.
pub open spec fn hex_prefixed(bytes: Seq<u8>) -> Seq<char> {
    seq!['0', 'x'] + hex_text(bytes)
}

pub open spec fn has_hex_prefix(s: Seq<char>) -> bool {
    s.len() >= 2 && s[0] == '0' && (s[1] == 'x' || s[1] == 'X')
}

/// The digits of a hexadecimal string: the text after an optional `0x` or
/// `0X`.
pub open spec fn hex_body(s: Seq<char>) -> Seq<char> {
    if has_hex_prefix(s) {
        s.skip(2)
    } else {
        s
    }
}

/// The bytes that pairs of hexadecimal digits denote.
pub open spec fn hex_pairs(digits: Seq<char>) -> Seq<u8> {
    Seq::new(
        digits.len() / 2,
        |i: int| (16 * hex_digit_value(digits[2 * i]) + hex_digit_value(digits[2 * i + 1])) as u8,
    )
}

/// What a hexadecimal string denotes when an `0x` prefix is allowed: the
/// whole text has even length and, after the prefix, holds digits only.
pub open spec fn hex_decoded(s: Seq<char>) -> Option<Seq<u8>> {
    if s.len() % 2 == 0 && all_hex_digits(hex_body(s)) {
        Some(hex_pairs(hex_body(s)))
    } else {
        None
    }
}

/// Whether a byte passes through percent-encoding unchanged: an ASCII
/// letter or digit, or one of `-`, `.`, `_`, `~`.
pub open spec fn is_unreserved(b: u8) -> bool {
    (48 <= b && b <= 57) || (65 <= b && b <= 90) || (97 <= b && b <= 122) || b == 45 || b == 46
        || b == 95 || b == 126
}

/// The percent-encoding of a byte string: unreserved bytes as they are,
/// every other byte as `%` and two upper-case hexadecimal digits.
pub open spec fn percent_encoded(bytes: Seq<u8>) -> Seq<char>
    decreases bytes.len(),
{
    if bytes.len() == 0 {
        Seq::empty()
    } else {
        let b = bytes.last();
        let head = percent_encoded(bytes.drop_last());
        if is_unreserved(b) {
            head.push(b as char)
        } else {
            head + seq!['%', hex_digit_upper((b / 16) as nat), hex_digit_upper((b % 16) as nat)]
        }
    }
}

/// Views of an optional byte vector.
pub open spec fn opt_bytes(v: Option<Vec<u8>>) -> Option<Seq<u8>> {
    match v {
        Some(b) => Some(b@),
        None => None,
    }
}

/// The Keccak-256 digest of a byte string.
pub uninterp spec fn keccak256_digest(data: Seq<u8>) -> Seq<u8>;

/// The bytes that a base64 text denotes in the standard alphabet with
/// padding, if it is well formed.
pub uninterp spec fn base64_decoded(text: Seq<char>) -> Option<Seq<u8>>;

/// The base64 text of a byte string in the standard alphabet with padding.
pub uninterp spec fn base64_text(data: Seq<u8>) -> Seq<char>;

pub proof fn lemma_hex_digit(n: nat)
    requires
        n < 16,
    ensures
        is_hex_digit(hex_digit(n)),
        hex_digit_value(hex_digit(n)) == n,
        hex_digit(n) != 'x',
        hex_digit(n) != 'X',
{
}

/// Hexadecimal text is made of digits only and denotes the bytes it was
/// written from.
pub proof fn lemma_hex_text(bytes: Seq<u8>)
    ensures
        hex_text(bytes).len() == 2 * bytes.len(),
        all_hex_digits(hex_text(bytes)),
        !has_hex_prefix(hex_text(bytes)),
        hex_pairs(hex_text(bytes)) == bytes,
{
    let t = hex_text(bytes);
    assert forall|i: int| 0 <= i < t.len() implies is_hex_digit(#[trigger] t[i]) by {
        lemma_hex_digit((bytes[i / 2] / 16) as nat);
        lemma_hex_digit((bytes[i / 2] % 16) as nat);
    }
    if t.len() >= 2 {
        lemma_hex_digit((bytes[0] % 16) as nat);
        assert(t[1] == hex_digit((bytes[0] % 16) as nat));
    }
    assert forall|i: int| 0 <= i < bytes.len() implies hex_pairs(t)[i] == bytes[i] by {
        lemma_hex_digit((bytes[i] / 16) as nat);
        lemma_hex_digit((bytes[i] % 16) as nat);
        assert(t[2 * i] == hex_digit((bytes[(2 * i) / 2] / 16) as nat));
        assert(t[2 * i + 1] == hex_digit((bytes[(2 * i + 1) / 2] % 16) as nat));
    }
    assert(hex_pairs(t) =~= bytes);
}

/// Decoding the prefixed hexadecimal text of `bytes` gives `bytes` back.
pub proof fn lemma_hex_prefixed_round_trip(bytes: Seq<u8>)
    ensures
        hex_decoded(hex_prefixed(bytes)) == Some(bytes),
{
    lemma_hex_text(bytes);
    let p = hex_prefixed(bytes);
    assert(p.skip(2) =~= hex_text(bytes));
}

/// Decoding the bare hexadecimal text of `bytes` gives `bytes` back.
pub proof fn lemma_hex_text_round_trip(bytes: Seq<u8>)
    ensures
        hex_decoded(hex_text(bytes)) == Some(bytes),
{
    lemma_hex_text(bytes);
}

/// Calls `ethers::utils::keccak256`, which feeds the bytes to a Keccak-256
/// hasher and returns its 32-byte output. The digest is named, not defined.
#[verifier::external_body]
pub(crate) fn keccak256(data: &[u8]) -> (r: Vec<u8>)
    ensures
        r@ == keccak256_digest(data@),
        r@.len() == 32,
{
    ethers::utils::keccak256(data).to_vec()
}

/// Calls `ethers::utils::hex::decode`: an input of odd length is refused,
/// then a leading `0x` or `0X` is dropped, and the rest must consist of
/// hexadecimal digits of either case, two per byte.
#[verifier::external_body]
pub(crate) fn hex_decode(text: &str) -> (r: Option<Vec<u8>>)
    ensures
        opt_bytes(r) == hex_decoded(text@),
{
    ethers::utils::hex::decode(text).ok()
}

/// Calls `ethers::utils::hex::encode_prefixed`: `0x`, then two lower-case
/// digits for each byte.
#[verifier::external_body]
pub(crate) fn hex_encode_prefixed(data: &[u8]) -> (r: String)
    ensures
        r@ == hex_prefixed(data@),
{
    ethers::utils::hex::encode_prefixed(data)
}

/// Calls `hex::encode`: two lower-case digits for each byte, no prefix.
#[verifier::external_body]
pub(crate) fn hex_encode(data: &[u8]) -> (r: String)
    ensures
        r@ == hex_text(data@),
{
    hex::encode(data)
}

/// Calls `decode` of the `base64` crate's `STANDARD` engine. What a text
/// denotes is named, not defined.
#[verifier::external_body]
pub(crate) fn base64_decode(text: &str) -> (r: Option<Vec<u8>>)
    ensures
        opt_bytes(r) == base64_decoded(text@),
{
    base64::engine::general_purpose::STANDARD.decode(text).ok()
}

/// Calls `encode` of the `base64` crate's `STANDARD` engine. The text is
/// named, not defined.
#[verifier::external_body]
pub(crate) fn base64_encode(data: &[u8]) -> (r: String)
    requires
        data@.len() <= usize::MAX / 2,
    ensures
        r@ == base64_text(data@),
{
    base64::engine::general_purpose::STANDARD.encode(data)
}

/// Calls `urlencoding::encode`, which works on the UTF-8 bytes of the text.
#[verifier::external_body]
pub(crate) fn url_encode(text: &str) -> (r: String)
    ensures
        r@ == percent_encoded(vstd::utf8::encode_utf8(text@)),
{
    urlencoding::encode(text).into_owned()
}

} // verus!
