use vstd::prelude::*;
use vstd::string::StringSliceAdditionalSpecFns;

verus! {

/// Why a hex string could not be decoded (the failures `hex::decode_to_slice` reports).
#[derive(Debug, Clone, Copy, PartialEq, Eq, Structural)]
pub enum HexError {
    /// A byte that is not one of `0-9`, `a-f`, `A-F`, with its position.
    InvalidHexCharacter { c: char, index: usize },
    /// The text has an odd number of bytes.
    OddLength,
    /// The text does not hold exactly twice as many bytes as the output.
    InvalidStringLength,
}

/// The value of one hex digit byte, if it is one.
pub open spec fn hex_digit_value(b: u8) -> Option<int> {
    if 48 <= b <= 57 {
        Some(b - 48)
    } else if 97 <= b <= 102 {
        Some(b - 87)
    } else if 65 <= b <= 70 {
        Some(b - 55)
    } else {
        None
    }
}

/// Position of the first byte of `data` that is not a hex digit.
pub open spec fn first_non_hex_digit(data: Seq<u8>) -> Option<int>
    decreases data.len(),
{
    if data.len() == 0 {
        None
    } else if hex_digit_value(data[0]) is None {
        Some(0)
    } else {
        match first_non_hex_digit(data.drop_first()) {
            Some(i) => Some(i + 1),
            None => None,
        }
    }
}

/// Decoding `data` (the bytes of a text) as hex into exactly `len` bytes.
pub open spec fn hex_decode_spec(data: Seq<u8>, len: nat) -> Result<Seq<u8>, HexError> {
    if data.len() % 2 != 0 {
        Err(HexError::OddLength)
    } else if data.len() / 2 != len {
        Err(HexError::InvalidStringLength)
    } else {
        match first_non_hex_digit(data) {
            Some(i) => Err(HexError::InvalidHexCharacter { c: data[i] as char, index: i as usize }),
            None => Ok(
                Seq::new(
                    len,
                    |i: int|
                        (hex_digit_value(data[2 * i]).unwrap() * 16 + hex_digit_value(
                            data[2 * i + 1],
                        ).unwrap()) as u8,
                ),
            ),
        }
    }
}

/// The lowercase hex digit for a value below 16.
pub open spec fn hex_char(n: int) -> char {
    if n < 10 {
        (48 + n) as char
    } else {
        (87 + n) as char
    }
}

/// Lowercase hex text of `data`: two digits per byte, high nibble first.
pub open spec fn hex_encode_spec(data: Seq<u8>) -> Seq<char> {
    Seq::new(
        2 * data.len(),
        |i: int|
            if i % 2 == 0 {
                hex_char(data[i / 2] as int / 16)
            } else {
                hex_char(data[i / 2] as int % 16)
            },
    )
}

/// Trusted: `hex::encode`, which writes every byte as two lowercase hex
/// digits, high nibble first.
#[verifier::external_body]
pub(crate) fn hex_encode(data: &[u8]) -> (s: String)
    ensures
        s@ == hex_encode_spec(data@),
{
    hex::encode(data)
}

/// Trusted: `hex::decode_to_slice` into a buffer of `len` bytes. It fails
/// with `OddLength` for an odd byte count, with `InvalidStringLength` when
/// the text is not `2 * len` bytes long, and otherwise with the first byte
/// that is not a hex digit; on success the buffer holds the decoded bytes.
#[verifier::external_body]
pub(crate) fn hex_decode(data: &str, len: usize) -> (r: Result<Vec<u8>, HexError>)
    ensures
        match r {
            Ok(v) => hex_decode_spec(data.spec_bytes(), len as nat) == Ok::<Seq<u8>, HexError>(v@),
            Err(e) => hex_decode_spec(data.spec_bytes(), len as nat) == Err::<Seq<u8>, HexError>(e),
        },
{
    let mut out = vec![0u8; len];
    match hex::decode_to_slice(data, &mut out) {
        Ok(()) => Ok(out),
        Err(hex::FromHexError::InvalidHexCharacter { c, index }) => Err(
            HexError::InvalidHexCharacter { c, index },
        ),
        Err(hex::FromHexError::OddLength) => Err(HexError::OddLength),
        Err(hex::FromHexError::InvalidStringLength) => Err(HexError::InvalidStringLength),
    }
}

/// A byte sequence with no position failing `pred` has no first such position.
proof fn lemma_all_hex_digits(data: Seq<u8>)
    requires
        forall|i: int| 0 <= i < data.len() ==> #[trigger] hex_digit_value(data[i]) is Some,
    ensures
        first_non_hex_digit(data) is None,
    decreases data.len(),
{
    if data.len() > 0 {
        assert(hex_digit_value(data[0]) is Some);
        let rest = data.drop_first();
        assert forall|i: int| 0 <= i < rest.len() implies #[trigger] hex_digit_value(rest[i]) is Some by {
            assert(rest[i] == data[i + 1]);
        }
        lemma_all_hex_digits(rest);
    }
}

/// Hex text produced by encoding is ASCII.
pub proof fn lemma_hex_encode_is_ascii(data: Seq<u8>)
    ensures
        vstd::utf8::is_ascii_chars(hex_encode_spec(data)),
{
}

/// Decoding the hex text of `data` into `data.len()` bytes gives back `data`.
pub proof fn lemma_hex_roundtrip(data: Seq<u8>)
    ensures
        hex_decode_spec(vstd::utf8::encode_utf8(hex_encode_spec(data)), data.len())
            == Ok::<Seq<u8>, HexError>(data),
{
    let text = hex_encode_spec(data);
    lemma_hex_encode_is_ascii(data);
    vstd::utf8::is_ascii_chars_encode_utf8(text);
    let bytes = vstd::utf8::encode_utf8(text);
    assert(bytes.len() == 2 * data.len());
    assert forall|i: int| 0 <= i < bytes.len() implies #[trigger] hex_digit_value(bytes[i]) is Some by {
        assert(bytes[i] == text[i] as u8);
    }
    lemma_all_hex_digits(bytes);
    let decoded = Seq::new(
        data.len(),
        |i: int|
            (hex_digit_value(bytes[2 * i]).unwrap() * 16 + hex_digit_value(bytes[2 * i + 1]).unwrap()) as u8,
    );
    assert forall|i: int| 0 <= i < data.len() implies decoded[i] == data[i] by {
        assert(bytes[2 * i] == text[2 * i] as u8);
        assert(bytes[2 * i + 1] == text[2 * i + 1] as u8);
        assert((2 * i) / 2 == i);
        assert((2 * i + 1) / 2 == i);
        assert((2 * i) % 2 == 0);
        assert((2 * i + 1) % 2 == 1);
    }
    assert(decoded =~= data);
}

/// A byte with ASCII upper-case letters turned to lower case.
pub open spec fn ascii_lowercase(b: u8) -> u8 {
    if 65 <= b <= 90 {
        (b + 32) as u8
    } else {
        b
    }
}

/// A text with no first non-digit position holds only hex digits.
proof fn lemma_no_first_non_hex_digit(data: Seq<u8>)
    requires
        first_non_hex_digit(data) is None,
    ensures
        forall|i: int| 0 <= i < data.len() ==> #[trigger] hex_digit_value(data[i]) is Some,
    decreases data.len(),
{
    if data.len() > 0 {
        lemma_no_first_non_hex_digit(data.drop_first());
        assert forall|i: int| 0 <= i < data.len() implies #[trigger] hex_digit_value(data[i]) is Some by {
            if i > 0 {
                assert(data[i] == data.drop_first()[i - 1]);
            }
        }
    }
}

/// Writing a hex digit's value back gives the digit in lower case.
proof fn lemma_hex_digit_lowercase(b: u8)
    requires
        hex_digit_value(b) is Some,
    ensures
        hex_char(hex_digit_value(b).unwrap()) == ascii_lowercase(b) as char,
{
}

/// Two digits' values combined into a byte split back into the same values.
proof fn lemma_nibbles(hi: int, lo: int)
    requires
        0 <= hi < 16,
        0 <= lo < 16,
    ensures
        ((hi * 16 + lo) as u8) as int / 16 == hi,
        ((hi * 16 + lo) as u8) as int % 16 == lo,
{
    assert(0 <= hi * 16 + lo < 256) by (nonlinear_arith)
        requires
            0 <= hi < 16,
            0 <= lo < 16,
    ;
    assert((hi * 16 + lo) / 16 == hi && (hi * 16 + lo) % 16 == lo) by (nonlinear_arith)
        requires
            0 <= hi < 16,
            0 <= lo < 16,
    ;
}

/// Hex text that decodes comes back, once encoded again, as the same text
/// in lower case.
pub proof fn lemma_hex_reencode_lowercases(data: Seq<u8>, len: nat)
    requires
        hex_decode_spec(data, len) is Ok,
    ensures
        hex_encode_spec(hex_decode_spec(data, len)->Ok_0)
            == Seq::new(data.len(), |i: int| ascii_lowercase(data[i]) as char),
{
    let decoded = hex_decode_spec(data, len)->Ok_0;
    lemma_no_first_non_hex_digit(data);
    let text = hex_encode_spec(decoded);
    let expected = Seq::new(data.len(), |i: int| ascii_lowercase(data[i]) as char);
    assert(text.len() == expected.len());
    assert forall|j: int| 0 <= j < text.len() implies text[j] == expected[j] by {
        let k = j / 2;
        assert(0 <= k < len);
        assert(hex_digit_value(data[2 * k]) is Some);
        assert(hex_digit_value(data[2 * k + 1]) is Some);
        let hi = hex_digit_value(data[2 * k]).unwrap();
        let lo = hex_digit_value(data[2 * k + 1]).unwrap();
        lemma_nibbles(hi, lo);
        assert(decoded[k] == (hi * 16 + lo) as u8);
        if j % 2 == 0 {
            assert(j == 2 * k);
            lemma_hex_digit_lowercase(data[2 * k]);
        } else {
            assert(j == 2 * k + 1);
            lemma_hex_digit_lowercase(data[2 * k + 1]);
        }
    }
    assert(text =~= expected);
}

} // verus!
