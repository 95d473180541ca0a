//! Percent-encoding of file names.
//!
//! The listing page writes each name into a link with [`encode_name`], and the
//! router reads a name back out of a request path with [`decode_name`]. The
//! two are specified over bytes ([`percent_encode`], [`percent_decode`]) and
//! lifted to text through UTF-8.

use vstd::prelude::*;
use vstd::utf8::*;

verus! {

/// The byte `%`.
pub const PERCENT: u8 = 0x25;

/// Bytes that are written as they are: ASCII letters and digits, and `-`, `.`,
/// `_`, `~`.
pub open spec fn is_unreserved(b: u8) -> bool {
    ||| 0x30 <= b <= 0x39
    ||| 0x41 <= b <= 0x5a
    ||| 0x61 <= b <= 0x7a
    ||| b == 0x2d
    ||| b == 0x2e
    ||| b == 0x5f
    ||| b == 0x7e
}

/// The upper-case hexadecimal digit for a value below 16.
pub open spec fn hex_digit(n: int) -> u8 {
    if n < 10 {
        (0x30 + n) as u8
    } else {
        (0x41 + n - 10) as u8
    }
}

/// The value of a hexadecimal digit of either case; `None` for any other byte.
pub open spec fn hex_value(d: u8) -> Option<int> {
    if 0x30 <= d <= 0x39 {
        Some(d - 0x30)
    } else if 0x41 <= d <= 0x46 {
        Some(d - 0x41 + 10)
    } else if 0x61 <= d <= 0x66 {
        Some(d - 0x61 + 10)
    } else {
        None
    }
}

/// One byte in encoded form: itself when unreserved, else `%` and two
/// upper-case hexadecimal digits, high nibble first.
pub open spec fn encode_byte(b: u8) -> Seq<u8> {
    if is_unreserved(b) {
        seq![b]
    } else {
        seq![PERCENT, hex_digit(b as int / 16), hex_digit(b as int % 16)]
    }
}

/// The percent-encoding of a byte string: each byte in encoded form, in order.
pub open spec fn percent_encode(bytes: Seq<u8>) -> Seq<u8>
    decreases bytes.len(),
{
    if bytes.len() == 0 {
        seq![]
    } else {
        encode_byte(bytes[0]) + percent_encode(bytes.drop_first())
    }
}

/// Whether `bytes` starts with `%` and two hexadecimal digits.
pub open spec fn starts_with_escape(bytes: Seq<u8>) -> bool {
    &&& bytes.len() >= 3
    &&& bytes[0] == PERCENT
    &&& hex_value(bytes[1]) is Some
    &&& hex_value(bytes[2]) is Some
}

/// The percent-decoding of a byte string, read from the left: `%` followed by
/// two hexadecimal digits stands for the byte they spell; any other byte,
/// a `%` without two digits behind it included, stands for itself.
pub open spec fn percent_decode(bytes: Seq<u8>) -> Seq<u8>
    decreases bytes.len(),
{
    if bytes.len() == 0 {
        seq![]
    } else if starts_with_escape(bytes) {
        seq![(hex_value(bytes[1])->0 * 16 + hex_value(bytes[2])->0) as u8] + percent_decode(
            bytes.skip(3),
        )
    } else {
        seq![bytes[0]] + percent_decode(bytes.drop_first())
    }
}

/// A name as it is written into a link: the percent-encoding of its UTF-8
/// bytes, read as text.
pub open spec fn encoded_name(name: Seq<char>) -> Seq<char> {
    decode_utf8(percent_encode(encode_utf8(name)))
}

/// The name that a path segment stands for: its UTF-8 bytes, percent-decoded
/// and read as text. `None` when the decoded bytes are not UTF-8.
pub open spec fn decoded_name(text: Seq<char>) -> Option<Seq<char>> {
    let bytes = percent_decode(encode_utf8(text));
    if valid_utf8(bytes) {
        Some(decode_utf8(bytes))
    } else {
        None
    }
}

/// Percent-encodes the UTF-8 bytes of `text`.
///
/// Trusted: the body calls `urlencoding::encode`, which keeps each unreserved
/// byte and writes every other byte as `%` and two upper-case hexadecimal
/// digits. The contract states this of the bytes of the result.
#[verifier::external_body]
fn urlencoding_encode(text: &str) -> (encoded: String)
    ensures
        encode_utf8(encoded@) == percent_encode(encode_utf8(text@)),
{
    urlencoding::encode(text).into_owned()
}

/// Percent-decodes the UTF-8 bytes of `text` and reads the result as text.
///
/// Trusted: the body calls `urlencoding::decode`, which replaces each `%`
/// that two hexadecimal digits follow by the byte they spell, copies every
/// other byte, and then fails exactly when the bytes it has are not UTF-8.
#[verifier::external_body]
fn urlencoding_decode(text: &str) -> (decoded: Option<String>)
    ensures
        match decoded {
            Some(name) => encode_utf8(name@) == percent_decode(encode_utf8(text@)),
            None => !valid_utf8(percent_decode(encode_utf8(text@))),
        },
{
    match urlencoding::decode(text) {
        Ok(name) => Some(name.into_owned()),
        Err(_) => None,
    }
}

/// Writes a file name in the form in which a link carries it.
pub fn encode_name(name: &str) -> (encoded: String)
    ensures
        encoded@ == encoded_name(name@),
{
    let encoded = urlencoding_encode(name);
    proof {
        encode_utf8_decode_utf8(encoded@);
    }
    encoded
}

/// Reads a file name out of a path segment. Fails exactly when the decoded
/// bytes are not UTF-8.
pub fn decode_name(text: &str) -> (decoded: Option<String>)
    ensures
        match decoded {
            Some(name) => decoded_name(text@) == Some(name@),
            None => decoded_name(text@) is None,
        },
{
    let decoded = urlencoding_decode(text);
    proof {
        if decoded is Some {
            encode_utf8_valid_utf8(decoded->0@);
            encode_utf8_decode_utf8(decoded->0@);
        }
    }
    decoded
}

/// A hexadecimal digit written by the encoder reads back as its value.
pub proof fn lemma_hex_digit_value(n: int)
    requires
        0 <= n < 16,
    ensures
        hex_value(hex_digit(n)) == Some(n),
        hex_digit(n) < 0x80,
        hex_digit(n) != PERCENT,
{
}

/// Every byte of an encoding is ASCII.
pub proof fn lemma_percent_encode_ascii(bytes: Seq<u8>)
    ensures
        forall|i: int|
            0 <= i < percent_encode(bytes).len() ==> #[trigger] percent_encode(bytes)[i] < 0x80,
    decreases bytes.len(),
{
    if bytes.len() > 0 {
        let b = bytes[0];
        let head = encode_byte(b);
        let tail = percent_encode(bytes.drop_first());
        lemma_hex_digit_value(b as int / 16);
        lemma_hex_digit_value(b as int % 16);
        lemma_percent_encode_ascii(bytes.drop_first());
        assert forall|i: int| 0 <= i < (head + tail).len() implies #[trigger] (head + tail)[i]
            < 0x80 by {
            if i >= head.len() {
                assert((head + tail)[i] == tail[i - head.len()]);
            }
        }
    }
}

/// An encoding is UTF-8, whatever bytes went in.
pub proof fn lemma_percent_encode_valid_utf8(bytes: Seq<u8>)
    ensures
        valid_utf8(percent_encode(bytes)),
{
    let encoded = percent_encode(bytes);
    lemma_percent_encode_ascii(bytes);
    assert(encoded.subrange(0, 0) =~= Seq::<u8>::empty());
    assert(partial_valid_utf8(encoded, 0));
    partial_valid_utf8_extend_ascii_block(encoded, 0, encoded.len() as int);
    assert(encoded.subrange(0, encoded.len() as int) =~= encoded);
}

/// Decoding undoes encoding, on every byte string.
pub proof fn lemma_percent_decode_encode(bytes: Seq<u8>)
    ensures
        percent_decode(percent_encode(bytes)) == bytes,
    decreases bytes.len(),
{
    if bytes.len() > 0 {
        let b = bytes[0];
        let rest = bytes.drop_first();
        let head = encode_byte(b);
        let encoded = percent_encode(bytes);
        lemma_percent_decode_encode(rest);
        assert(encoded == head + percent_encode(rest));
        if is_unreserved(b) {
            assert(encoded[0] == b);
            assert(!starts_with_escape(encoded));
            assert(encoded.drop_first() =~= percent_encode(rest));
        } else {
            lemma_hex_digit_value(b as int / 16);
            lemma_hex_digit_value(b as int % 16);
            assert(encoded[0] == PERCENT);
            assert(encoded[1] == hex_digit(b as int / 16));
            assert(encoded[2] == hex_digit(b as int % 16));
            assert(starts_with_escape(encoded));
            assert(encoded.skip(3) =~= percent_encode(rest));
            assert((b as int / 16) * 16 + b as int % 16 == b as int);
        }
        assert(percent_decode(encoded) =~= seq![b] + rest);
        assert(seq![b] + rest =~= bytes);
    }
}

/// The link written for a name leads back to that name: decoding an encoded
/// name succeeds and gives the name.
pub proof fn lemma_decode_inverts_encode(name: Seq<char>)
    ensures
        decoded_name(encoded_name(name)) == Some(name),
{
    let raw = encode_utf8(name);
    let encoded = percent_encode(raw);
    lemma_percent_encode_valid_utf8(raw);
    decode_utf8_encode_utf8(encoded);
    lemma_percent_decode_encode(raw);
    encode_utf8_valid_utf8(name);
    encode_utf8_decode_utf8(name);
}

/// For every path segment that decodes to a name, the link that the listing
/// writes for that name decodes to the same name.
pub proof fn lemma_link_round_trip(text: Seq<char>)
    requires
        decoded_name(text) is Some,
    ensures
        decoded_name(encoded_name(decoded_name(text)->0)) == decoded_name(text),
{
    lemma_decode_inverts_encode(decoded_name(text)->0);
}

} // verus!
