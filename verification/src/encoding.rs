//! The base64 encoding of bytes.

use vstd::prelude::*;
use vstd::utf8::{encode_utf8, is_ascii_chars};

verus! {

/// Why a text is not base64.
#[derive(Clone, Copy, PartialEq, Eq, Structural, Debug)]
pub enum Base64Error {
    /// A byte outside the alphabet, or padding out of place: its offset and
    /// the byte.
    InvalidByte(usize, u8),
    /// No byte sequence has an encoding of this length.
    InvalidLength,
    /// The last symbol carries bits that belong to no byte: its offset and the
    /// symbol.
    InvalidLastSymbol(usize, u8),
}

/// The symbol for six bits: the letters, upper case first, then the digits,
/// plus and slash.
pub open spec fn symbol(bits: int) -> char {
    if bits < 26 {
        ('A' as int + bits) as char
    } else if bits < 52 {
        ('a' as int + bits - 26) as char
    } else if bits < 62 {
        ('0' as int + bits - 52) as char
    } else if bits == 62 {
        '+'
    } else {
        '/'
    }
}

/// The byte at `i`, or zero behind the end.
pub open spec fn byte_or_zero(bytes: Seq<u8>, i: int) -> int {
    if i < bytes.len() {
        bytes[i] as int
    } else {
        0
    }
}

/// The six bits at position `i`, where four positions share three bytes.
pub open spec fn six_bits(bytes: Seq<u8>, i: int) -> int {
    let (a, b, c) = (
        byte_or_zero(bytes, i / 4 * 3),
        byte_or_zero(bytes, i / 4 * 3 + 1),
        byte_or_zero(bytes, i / 4 * 3 + 2),
    );
    if i % 4 == 0 {
        a / 4
    } else if i % 4 == 1 {
        a % 4 * 16 + b / 16
    } else if i % 4 == 2 {
        b % 16 * 4 + c / 64
    } else {
        c % 64
    }
}

/// The length of the encoding of `len` bytes: four symbols for each three bytes
/// begun.
pub open spec fn encoded_len(len: nat) -> nat {
    (len + 2) / 3 * 4
}

/// The base64 encoding in the standard alphabet, filled up with equals signs to
/// a multiple of four.
pub open spec fn base64_of(bytes: Seq<u8>) -> Seq<char> {
    Seq::new(
        encoded_len(bytes.len()),
        |i: int|
            if i / 4 * 3 + i % 4 <= bytes.len() {
                symbol(six_bits(bytes, i))
            } else {
                '='
            },
    )
}

/// Whether a character can occur in an encoding.
pub open spec fn in_alphabet(c: char) -> bool {
    'A' <= c <= 'Z' || 'a' <= c <= 'z' || '0' <= c <= '9' || c == '+' || c == '/' || c == '='
}

/// What `base64::decode` makes of the text.
pub uninterp spec fn base64_decoded(text: Seq<char>) -> Result<Seq<u8>, Base64Error>;

/// Whether the encoding of `len` bytes fits in memory.
pub open spec fn encodable(len: nat) -> bool {
    encoded_len(len) <= isize::MAX
}

/// Whether `base64::decode` can size its buffer for `text`.
pub open spec fn decodable(text: Seq<char>) -> bool {
    encode_utf8(text).len() * 4 <= usize::MAX
}

/// A successful decoding.
pub open spec fn decoded_bytes(bytes: Seq<u8>) -> Result<Seq<u8>, Base64Error> {
    Ok(bytes)
}

/// A failed decoding.
pub open spec fn decode_failure(e: Base64Error) -> Result<Seq<u8>, Base64Error> {
    Err(e)
}

/// `base64::encode`. Claimed of it: it writes the standard alphabet with
/// padding, and where `base64::decode` can take the text, decoding gives the
/// bytes back. It panics where the encoding does not fit in memory.
#[verifier::external_body]
pub(crate) fn base64_encode(bytes: &[u8]) -> (text: String)
    requires
        encodable(bytes@.len()),
    ensures
        text@ == base64_of(bytes@),
        decodable(text@) ==> base64_decoded(text@) == decoded_bytes(bytes@),
{
    base64::encode(bytes)
}

/// `base64::decode`, the standard alphabet. Claimed of it: the bytes, or the
/// error, depend on the text alone. Its buffer size overflows for texts longer
/// than a quarter of the address space.
#[verifier::external_body]
pub(crate) fn base64_decode(text: &str) -> (bytes: Result<Vec<u8>, Base64Error>)
    requires
        decodable(text@),
    ensures
        match bytes {
            Ok(b) => base64_decoded(text@) == decoded_bytes(b@),
            Err(e) => base64_decoded(text@) == decode_failure(e),
        },
{
    match base64::decode(text) {
        Ok(bytes) => Ok(bytes),
        Err(base64::DecodeError::InvalidByte(at, byte)) => Err(Base64Error::InvalidByte(at, byte)),
        Err(base64::DecodeError::InvalidLength) => Err(Base64Error::InvalidLength),
        Err(base64::DecodeError::InvalidLastSymbol(at, byte)) => Err(
            Base64Error::InvalidLastSymbol(at, byte),
        ),
    }
}

proof fn lemma_six_bits_range(bytes: Seq<u8>, i: int)
    requires
        0 <= i,
    ensures
        0 <= six_bits(bytes, i) < 64,
{
}

proof fn lemma_symbol(x: int, y: int)
    requires
        0 <= x < 64,
        0 <= y < 64,
    ensures
        symbol(x) == symbol(y) ==> x == y,
        symbol(x) != '=',
        in_alphabet(symbol(x)),
{
}

/// An encoding has four characters for each three bytes begun, all of them of
/// the alphabet, and so of ASCII.
pub proof fn encodings_stay_in_the_alphabet(bytes: Seq<u8>)
    ensures
        base64_of(bytes).len() == encoded_len(bytes.len()),
        forall|i: int|
            0 <= i < base64_of(bytes).len() ==> in_alphabet(#[trigger] base64_of(bytes)[i]),
        is_ascii_chars(base64_of(bytes)),
{
    assert forall|i: int| 0 <= i < base64_of(bytes).len() implies in_alphabet(
        #[trigger] base64_of(bytes)[i],
    ) by {
        lemma_six_bits_range(bytes, i);
        lemma_symbol(six_bits(bytes, i), 0);
    }
}

/// Two encodings that are equal at a position which holds no padding in either
/// carry the same six bits there.
proof fn lemma_same_bits(x: Seq<u8>, y: Seq<u8>, i: int)
    requires
        base64_of(x) == base64_of(y),
        x.len() == y.len(),
        0 <= i < encoded_len(x.len()),
        i / 4 * 3 + i % 4 <= x.len(),
    ensures
        six_bits(x, i) == six_bits(y, i),
{
    lemma_six_bits_range(x, i);
    lemma_six_bits_range(y, i);
    lemma_symbol(six_bits(x, i), six_bits(y, i));
    assert(base64_of(x)[i] == symbol(six_bits(x, i)));
    assert(base64_of(y)[i] == symbol(six_bits(y, i)));
}

proof fn lemma_no_shorter(x: Seq<u8>, y: Seq<u8>)
    requires
        base64_of(x) == base64_of(y),
    ensures
        x.len() >= y.len(),
{
    if x.len() < y.len() {
        let n = x.len() as int;
        assert(base64_of(x).len() == encoded_len(x.len()));
        assert(base64_of(y).len() == encoded_len(y.len()));
        assert((n + 2) / 3 * 4 == (y.len() as int + 2) / 3 * 4);
        let group = (n + 2) / 3 - 1;
        assert(1 <= n - group * 3 <= 2);
        let i = group * 4 + (n - group * 3) + 1;
        assert(i / 4 == group && i % 4 == n - group * 3 + 1);
        lemma_six_bits_range(y, i);
        lemma_symbol(six_bits(y, i), 0);
        assert(base64_of(x)[i] == '=');
        assert(base64_of(y)[i] == symbol(six_bits(y, i)));
    }
}

/// Different bytes have different encodings.
pub proof fn encodings_differ(x: Seq<u8>, y: Seq<u8>)
    ensures
        base64_of(x) == base64_of(y) <==> x == y,
{
    if base64_of(x) == base64_of(y) {
        lemma_no_shorter(x, y);
        lemma_no_shorter(y, x);
        assert forall|k: int| 0 <= k < x.len() implies x[k] == y[k] by {
            let i = k / 3 * 4 + k % 3;
            assert(i / 4 == k / 3 && i % 4 == k % 3);
            assert((i + 1) / 4 == k / 3 && (i + 1) % 4 == k % 3 + 1);
            lemma_same_bits(x, y, i);
            lemma_same_bits(x, y, i + 1);
        }
        assert(x =~= y);
    }
}

/// The sixty-four symbols in the order of the bits that they stand for.
proof fn lemma_symbols_in_order(bits: int)
    requires
        0 <= bits < 64,
    ensures
        symbol(bits) == "ABCDEFGHIJKLMNOPQRSTUVWXYZabcdefghijklmnopqrstuvwxyz0123456789+/"@[bits],
{
    reveal_strlit("ABCDEFGHIJKLMNOPQRSTUVWXYZabcdefghijklmnopqrstuvwxyz0123456789+/");
}

proof fn lemma_four_digits(a: u8, b: u8, c: u8)
    ensures
        ({
            let number = a * 65536 + b * 256 + c;
            &&& number / 262144 == a as int / 4
            &&& number / 4096 % 64 == a as int % 4 * 16 + b as int / 16
            &&& number / 64 % 64 == b as int % 16 * 4 + c as int / 64
            &&& number % 64 == c as int % 64
        }),
{
    let number = a * 65536 + b * 256 + c;
    assert(number / 4096 == a * 16 + b as int / 16) by {
        assert(b * 256 + c == b as int / 16 * 4096 + (b as int % 16 * 256 + c));
    }
    assert(number / 64 == a * 1024 + b * 4 + c as int / 64);
}

/// Each three bytes, as one number of twenty-four bits, are written as its four
/// digits to the base sixty-four, in the alphabet. Where the bytes end one or
/// two short of three, the number is filled up with zero bits, and the last one
/// or two digits are equals signs.
pub proof fn three_bytes_make_four_symbols(bytes: Seq<u8>, group: int)
    requires
        0 <= group * 3 < bytes.len(),
    ensures
        ({
            let alphabet = "ABCDEFGHIJKLMNOPQRSTUVWXYZabcdefghijklmnopqrstuvwxyz0123456789+/"@;
            let at = group * 3;
            let second = if at + 1 < bytes.len() {
                bytes[at + 1] as int
            } else {
                0
            };
            let third = if at + 2 < bytes.len() {
                bytes[at + 2] as int
            } else {
                0
            };
            let number = bytes[at] * 65536 + second * 256 + third;
            let text = base64_of(bytes);
            &&& text.len() == (bytes.len() + 2) / 3 * 4
            &&& text[group * 4] == alphabet[number / 262144]
            &&& text[group * 4 + 1] == alphabet[number / 4096 % 64]
            &&& text[group * 4 + 2] == if at + 1 < bytes.len() {
                alphabet[number / 64 % 64]
            } else {
                '='
            }
            &&& text[group * 4 + 3] == if at + 2 < bytes.len() {
                alphabet[number % 64]
            } else {
                '='
            }
        }),
{
    let a = bytes[group * 3];
    let b = byte_or_zero(bytes, group * 3 + 1) as u8;
    let c = byte_or_zero(bytes, group * 3 + 2) as u8;
    let number = a * 65536 + b * 256 + c;
    lemma_four_digits(a, b, c);
    lemma_symbols_in_order(number / 262144);
    lemma_symbols_in_order(number / 4096 % 64);
    lemma_symbols_in_order(number / 64 % 64);
    lemma_symbols_in_order(number % 64);
    let i = group * 4;
    assert(i / 4 == group && i % 4 == 0);
    assert((i + 1) / 4 == group && (i + 1) % 4 == 1);
    assert((i + 2) / 4 == group && (i + 2) % 4 == 2);
    assert((i + 3) / 4 == group && (i + 3) % 4 == 3);
}

} // verus!
