//! Hexadecimal text to bytes and back.
use vstd::prelude::*;
use vstd::string::StringSliceAdditionalSpecFns;
use vstd::utf8::{encode_utf8, is_ascii_chars, is_ascii_chars_encode_utf8};

verus! {

/// Is `b` one of the ASCII digits `0-9`, `a-f`, `A-F`?
pub open spec fn is_hex_digit(b: u8) -> bool {
    (0x30 <= b && b <= 0x39) || (0x61 <= b && b <= 0x66) || (0x41 <= b && b <= 0x46)
}

/// The value of a hex digit.
pub open spec fn hex_digit_value(b: u8) -> int {
    if 0x30 <= b && b <= 0x39 {
        b - 0x30
    } else if 0x61 <= b && b <= 0x66 {
        b - 0x61 + 10
    } else {
        b - 0x41 + 10
    }
}

/// Text whose bytes are an even number of hex digits.
pub open spec fn is_valid_hex(text: Seq<u8>) -> bool {
    &&& text.len() % 2 == 0
    &&& forall|i: int| 0 <= i < text.len() ==> #[trigger] is_hex_digit(text[i])
}

/// The bytes that valid hex text stands for: each pair of digits is one byte,
/// high nibble first.
pub open spec fn hex_decoded(text: Seq<u8>) -> Seq<u8> {
    Seq::new(
        text.len() / 2,
        |i: int| (hex_digit_value(text[2 * i]) * 16 + hex_digit_value(text[2 * i + 1])) as u8,
    )
}

/// Position of the first byte that is not a hex digit.
pub open spec fn is_first_non_hex(text: Seq<u8>, index: int) -> bool {
    &&& 0 <= index < text.len()
    &&& !is_hex_digit(text[index])
    &&& forall|j: int| 0 <= j < index ==> #[trigger] is_hex_digit(text[j])
}

/// The lowercase hex digit for a nibble.
pub open spec fn lower_hex_digit(n: int) -> char {
    if n < 10 {
        (0x30 + n) as char
    } else {
        (0x61 + n - 10) as char
    }
}

/// Lowercase hex text of `data`: two digits per byte, high nibble first.
pub open spec fn hex_encoded(data: Seq<u8>) -> Seq<char> {
    Seq::new(
        2 * data.len(),
        |i: int|
            if i % 2 == 0 {
                lower_hex_digit(data[i / 2] as int / 16)
            } else {
                lower_hex_digit(data[i / 2] as int % 16)
            },
    )
}

proof fn lemma_lower_hex_digit(n: int)
    requires
        0 <= n < 16,
    ensures
        '\0' <= lower_hex_digit(n) <= '\u{7f}',
        is_hex_digit(lower_hex_digit(n) as u8),
        hex_digit_value(lower_hex_digit(n) as u8) == n,
{
}

/// Encoding is undone by decoding: the text of any bytes is valid hex, all
/// ASCII, and decodes to the same bytes.
pub proof fn lemma_hex_round_trip(data: Seq<u8>)
    ensures
        is_ascii_chars(hex_encoded(data)),
        is_valid_hex(encode_utf8(hex_encoded(data))),
        hex_decoded(encode_utf8(hex_encoded(data))) == data,
{
    let text = hex_encoded(data);
    assert forall|i: int| 0 <= i < text.len() implies '\0' <= #[trigger] text[i] <= '\u{7f}' by {
        lemma_lower_hex_digit(data[i / 2] as int / 16);
        lemma_lower_hex_digit(data[i / 2] as int % 16);
    }
    is_ascii_chars_encode_utf8(text);
    let bytes = encode_utf8(text);
    assert forall|i: int| 0 <= i < bytes.len() implies #[trigger] is_hex_digit(bytes[i]) by {
        lemma_lower_hex_digit(data[i / 2] as int / 16);
        lemma_lower_hex_digit(data[i / 2] as int % 16);
        assert(bytes[i] == text[i] as u8);
    }
    assert forall|k: int| 0 <= k < data.len() implies #[trigger] hex_decoded(bytes)[k] == data[k] by {
        let hi = data[k] as int / 16;
        let lo = data[k] as int % 16;
        lemma_lower_hex_digit(hi);
        lemma_lower_hex_digit(lo);
        assert(bytes[2 * k] == text[2 * k] as u8);
        assert(bytes[2 * k + 1] == text[2 * k + 1] as u8);
        assert((2 * k) / 2 == k);
        assert((2 * k + 1) / 2 == k);
        assert((2 * k) % 2 == 0);
        assert((2 * k + 1) % 2 == 1);
    }
    assert(hex_decoded(bytes) =~= data);
}

/// Why hex text could not be decoded.
#[derive(Debug, Clone, PartialEq, Eq)]
pub enum HexError {
    /// A byte that is not a hex digit, and its position.
    InvalidHexCharacter { c: char, index: usize },
    /// The text has an odd number of bytes.
    OddLength,
    /// The text does not fit a container of fixed size.
    InvalidStringLength,
}

/// Relies on `hex::decode`: an odd byte count fails first; otherwise the
/// pairs are read in order, both cases of letters accepted, and the first
/// byte that is not a hex digit fails with its position.
#[verifier::external_body]
pub(crate) fn hex_decode(text: &str) -> (r: Result<Vec<u8>, HexError>)
    ensures
        match r {
            Ok(bytes) => is_valid_hex(text.spec_bytes()) && bytes@ == hex_decoded(
                text.spec_bytes(),
            ),
            Err(HexError::OddLength) => text.spec_bytes().len() % 2 == 1,
            Err(HexError::InvalidHexCharacter { c, index }) => {
                &&& text.spec_bytes().len() % 2 == 0
                &&& is_first_non_hex(text.spec_bytes(), index as int)
                &&& c == (text.spec_bytes()[index as int] as char)
            },
            Err(HexError::InvalidStringLength) => false,
        },
{
    match hex::decode(text) {
        Ok(bytes) => Ok(bytes),
        Err(hex::FromHexError::InvalidHexCharacter { c, index }) => Err(
            HexError::InvalidHexCharacter { c, index },
        ),
        Err(hex::FromHexError::OddLength) => Err(HexError::OddLength),
        Err(hex::FromHexError::InvalidStringLength) => Err(HexError::InvalidStringLength),
    }
}

/// Relies on `hex::encode`: two lowercase digits per byte, high nibble first.
#[verifier::external_body]
pub(crate) fn hex_encode(data: &[u8]) -> (r: String)
    ensures
        r@ == hex_encoded(data@),
{
    hex::encode(data)
}

/// Decodes hex text into bytes.
pub fn decode_hex(text: &str) -> (r: Result<Vec<u8>, HexError>)
    ensures
        r is Ok <==> is_valid_hex(text.spec_bytes()),
        r is Ok ==> r->Ok_0@ == hex_decoded(text.spec_bytes()),
        r == Err::<Vec<u8>, HexError>(HexError::OddLength) <==> text.spec_bytes().len() % 2 == 1,
        r matches Err(HexError::InvalidHexCharacter { c, index }) ==> is_first_non_hex(
            text.spec_bytes(),
            index as int,
        ) && c == (text.spec_bytes()[index as int] as char),
        !(r matches Err(HexError::InvalidStringLength)),
{
    hex_decode(text)
}

/// Encodes bytes as lowercase hex text.
pub fn encode_hex(data: &[u8]) -> (r: String)
    ensures
        r@ == hex_encoded(data@),
{
    hex_encode(data)
}

} // verus!
