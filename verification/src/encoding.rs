//! Percent-encoding of station identifiers.
//!
//! A station identifier is opaque text supplied by the operator. Before it is
//! placed in a request path every byte of its UTF-8 form that is not an ASCII
//! letter or digit is replaced by `%` and two upper-case hexadecimal digits.
//! This module defines that encoding as a specification, defines the
//! decoding that a server applies to a path segment, and proves that the
//! second undoes the first.

use vstd::prelude::*;
use vstd::utf8::*;

verus! {

/// True for the bytes of ASCII letters and digits, the only bytes that are
/// copied to the encoded text unchanged.
pub open spec fn is_alphanumeric(b: u8) -> bool {
    ||| 0x30 <= b <= 0x39
    ||| 0x41 <= b <= 0x5A
    ||| 0x61 <= b <= 0x7A
}

/// The upper-case hexadecimal digit for a value below sixteen, as an ASCII byte.
pub open spec fn hex_digit(n: u8) -> u8
    recommends
        n < 16,
{
    if n < 10 {
        (0x30 + n) as u8
    } else {
        (0x41 + (n - 10)) as u8
    }
}

/// The value of a hexadecimal digit in either case, or `None` for any other byte.
pub open spec fn hex_value(b: u8) -> Option<u8> {
    if 0x30 <= b <= 0x39 {
        Some((b - 0x30) as u8)
    } else if 0x41 <= b <= 0x46 {
        Some((b - 0x41 + 10) as u8)
    } else if 0x61 <= b <= 0x66 {
        Some((b - 0x61 + 10) as u8)
    } else {
        None
    }
}

/// The three bytes `%XY` that stand for `b`.
pub open spec fn escape(b: u8) -> Seq<u8> {
    seq![0x25u8, hex_digit(b / 16), hex_digit(b % 16)]
}

/// The encoded form of one byte.
pub open spec fn encode_byte(b: u8) -> Seq<u8> {
    if is_alphanumeric(b) {
        seq![b]
    } else {
        escape(b)
    }
}

/// The encoded form of a byte sequence: the encoded forms of its bytes, in order.
pub open spec fn percent_encode(bytes: Seq<u8>) -> Seq<u8>
    decreases bytes.len(),
{
    if bytes.len() == 0 {
        Seq::empty()
    } else {
        encode_byte(bytes[0]) + percent_encode(bytes.drop_first())
    }
}

/// Percent-decoding of a byte sequence: `%` followed by two hexadecimal
/// digits becomes the byte they name, every other byte stands for itself.
pub open spec fn percent_decode(bytes: Seq<u8>) -> Seq<u8>
    decreases bytes.len(),
{
    if bytes.len() == 0 {
        Seq::empty()
    } else if bytes[0] == 0x25 && bytes.len() >= 3 && hex_value(bytes[1]) is Some && hex_value(
        bytes[2],
    ) is Some {
        seq![(hex_value(bytes[1])->0 * 16 + hex_value(bytes[2])->0) as u8] + percent_decode(
            bytes.skip(3),
        )
    } else {
        seq![bytes[0]] + percent_decode(bytes.drop_first())
    }
}

/// The text whose characters are the given ASCII bytes.
pub open spec fn ascii_text(bytes: Seq<u8>) -> Seq<char> {
    Seq::new(bytes.len(), |i: int| bytes[i] as char)
}

/// The percent-encoded form of a text: the encoding of its UTF-8 bytes, read as ASCII.
pub open spec fn percent_encoded(text: Seq<char>) -> Seq<char> {
    ascii_text(percent_encode(encode_utf8(text)))
}

/// The text that a percent-encoded text stands for: its bytes are decoded
/// and the result is read as UTF-8.
pub open spec fn percent_decoded(text: Seq<char>) -> Seq<char> {
    decode_utf8(percent_decode(encode_utf8(text)))
}

/// True for the characters that may occur in an encoded text: ASCII letters,
/// ASCII digits and `%`.
pub open spec fn is_encoded_char(c: char) -> bool {
    ||| '0' <= c <= '9'
    ||| 'A' <= c <= 'Z'
    ||| 'a' <= c <= 'z'
    ||| c == '%'
}

/// Every byte of an encoded sequence is an ASCII letter, an ASCII digit or `%`.
pub proof fn lemma_encode_bytes_safe(bytes: Seq<u8>)
    ensures
        forall|i: int|
            0 <= i < percent_encode(bytes).len() ==> {
                let b = #[trigger] percent_encode(bytes)[i];
                is_alphanumeric(b) || b == 0x25
            },
    decreases bytes.len(),
{
    if bytes.len() > 0 {
        lemma_encode_bytes_safe(bytes.drop_first());
        let head = encode_byte(bytes[0]);
        let tail = percent_encode(bytes.drop_first());
        assert forall|i: int| 0 <= i < percent_encode(bytes).len() implies {
            let b = #[trigger] percent_encode(bytes)[i];
            is_alphanumeric(b) || b == 0x25
        } by {
            if i >= head.len() {
                assert(percent_encode(bytes)[i] == tail[i - head.len()]);
            }
        }
    }
}

/// Decoding undoes encoding, byte for byte.
pub proof fn lemma_decode_encode_bytes(bytes: Seq<u8>)
    ensures
        percent_decode(percent_encode(bytes)) == bytes,
    decreases bytes.len(),
{
    if bytes.len() > 0 {
        let b = bytes[0];
        let tail = percent_encode(bytes.drop_first());
        let all = percent_encode(bytes);
        lemma_decode_encode_bytes(bytes.drop_first());
        if is_alphanumeric(b) {
            assert(all.drop_first() =~= tail);
            assert(percent_decode(all) == seq![b] + percent_decode(tail));
        } else {
            assert(all.skip(3) =~= tail);
            assert(all[0] == 0x25 && all[1] == hex_digit(b / 16) && all[2] == hex_digit(b % 16));
            assert(hex_value(hex_digit(b / 16)) == Some((b / 16) as u8));
            assert(hex_value(hex_digit(b % 16)) == Some((b % 16) as u8));
            assert(percent_decode(all) == seq![b] + percent_decode(tail));
        }
        assert(seq![b] + bytes.drop_first() =~= bytes);
    }
}

/// An encoded text holds no character but ASCII letters, ASCII digits and
/// `%`: nothing that has a meaning of its own in a URL is left in it.
pub proof fn lemma_encoded_is_safe(text: Seq<char>)
    ensures
        forall|i: int|
            0 <= i < percent_encoded(text).len() ==> is_encoded_char(
                #[trigger] percent_encoded(text)[i],
            ),
        is_ascii_chars(percent_encoded(text)),
{
    let bytes = percent_encode(encode_utf8(text));
    lemma_encode_bytes_safe(encode_utf8(text));
    assert forall|i: int| 0 <= i < percent_encoded(text).len() implies is_encoded_char(
        #[trigger] percent_encoded(text)[i],
    ) && '\0' <= percent_encoded(text)[i] <= '\u{7f}' by {
        let b = bytes[i];
        assert(is_alphanumeric(b) || b == 0x25);
        assert(percent_encoded(text)[i] == b as char);
    }
}

/// Round trip: the encoded form of any text, decoded, is that text again.
pub proof fn lemma_percent_round_trip(text: Seq<char>)
    ensures
        percent_decoded(percent_encoded(text)) == text,
{
    let raw = encode_utf8(text);
    let bytes = percent_encode(raw);
    let encoded = percent_encoded(text);
    lemma_encoded_is_safe(text);
    lemma_encode_bytes_safe(raw);
    is_ascii_chars_encode_utf8(encoded);
    assert(encode_utf8(encoded) =~= bytes) by {
        assert forall|i: int| 0 <= i < bytes.len() implies encode_utf8(encoded)[i] == bytes[i] by {
            let b = bytes[i];
            assert(is_alphanumeric(b) || b == 0x25);
            assert(encoded[i] == b as char);
            assert((b as char) as u8 == b);
        }
    }
    lemma_decode_encode_bytes(raw);
    encode_utf8_decode_utf8(text);
}

/// Percent-encodes `text`, keeping ASCII letters and digits.
///
/// Calls `percent_encoding::utf8_percent_encode` with the set
/// `NON_ALPHANUMERIC` and collects what it yields. The contract claims that
/// the result is `percent_encoded`: that crate escapes every non-ASCII byte
/// and every ASCII byte in the set, the set holds all ASCII bytes but letters
/// and digits, and an escape is `%` with two upper-case hexadecimal digits.
#[verifier::external_body]
pub(crate) fn utf8_percent_encode(text: &str) -> (encoded: String)
    ensures
        encoded@ == percent_encoded(text@),
{
    percent_encoding::utf8_percent_encode(text, percent_encoding::NON_ALPHANUMERIC).to_string()
}

} // verus!
